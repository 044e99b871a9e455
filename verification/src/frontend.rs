//! The client front ends the proxy can serve and what each of them supports.
use vstd::prelude::*;
use crate::text;

verus! {

#[derive(Debug, Clone, Copy, PartialEq, Eq, Structural)]
pub enum Frontend {
    Wrayth,
    Stormfront,
    Wizard,
    Avalon,
    Genie,
    Frostbite,
    Profanity,
    Mudlet,
    Unknown,
}

#[derive(Debug, Clone, Copy, PartialEq, Eq, Structural)]
pub enum Capability {
    Xml,
    Gsl,
    Streams,
    Mono,
    RoomWindow,
}

impl Frontend {
    pub open spec fn caps_spec(self) -> Seq<Capability> {
        match self {
            Frontend::Wrayth | Frontend::Stormfront => seq![
                Capability::Xml,
                Capability::Streams,
                Capability::Mono,
                Capability::RoomWindow,
            ],
            Frontend::Wizard | Frontend::Avalon => seq![Capability::Gsl],
            Frontend::Genie => seq![Capability::Xml, Capability::Mono],
            Frontend::Frostbite | Frontend::Mudlet => seq![Capability::Xml],
            Frontend::Profanity => seq![Capability::Xml, Capability::Streams],
            Frontend::Unknown => seq![],
        }
    }

    /// The capabilities of this front end, in a fixed order.
    pub fn capabilities(&self) -> (r: Vec<Capability>)
        ensures
            r@ == self.caps_spec(),
    {
        let r = match self {
            Frontend::Wrayth | Frontend::Stormfront => vec![
                Capability::Xml,
                Capability::Streams,
                Capability::Mono,
                Capability::RoomWindow,
            ],
            Frontend::Wizard | Frontend::Avalon => vec![Capability::Gsl],
            Frontend::Genie => vec![Capability::Xml, Capability::Mono],
            Frontend::Frostbite | Frontend::Mudlet => vec![Capability::Xml],
            Frontend::Profanity => vec![Capability::Xml, Capability::Streams],
            Frontend::Unknown => Vec::new(),
        };
        assert(r@ =~= self.caps_spec());
        r
    }

    pub fn supports(&self, cap: Capability) -> (r: bool)
        ensures
            r == self.caps_spec().contains(cap),
    {
        let caps = self.capabilities();
        let mut i: usize = 0;
        while i < caps.len()
            invariant
                i <= caps.len(),
                caps@ == self.caps_spec(),
                forall|k: int| 0 <= k < i ==> caps@[k] != cap,
            decreases caps.len() - i,
        {
            if caps[i] == cap {
                assert(caps@[i as int] == cap);
                return true;
            }
            i += 1;
        }
        false
    }

    /// The front end for an already lowercased name.
    pub open spec fn from_lower(s: Seq<char>) -> Frontend {
        if s == "wrayth"@ || s == "stormfront"@ {
            Frontend::Wrayth
        } else if s == "wizard"@ {
            Frontend::Wizard
        } else if s == "avalon"@ {
            Frontend::Avalon
        } else if s == "genie"@ {
            Frontend::Genie
        } else if s == "frostbite"@ {
            Frontend::Frostbite
        } else if s == "profanity"@ {
            Frontend::Profanity
        } else if s == "mudlet"@ {
            Frontend::Mudlet
        } else {
            Frontend::Unknown
        }
    }

    /// The front end named `s`, ignoring case; `Stormfront` is served as
    /// `Wrayth`, and an unknown name gives `Unknown`.
    pub fn from_name(s: &str) -> (r: Frontend)
        ensures
            r == Frontend::from_lower(text::unicode_lowercase(s@)),
            text::all_ascii(s@) ==> r == Frontend::from_lower(s@.map_values(|c: char| text::ascii_lower(c))),
    {
        let lower = text::to_lowercase(s);
        let l = text::chars_of(lower.as_str());
        if text::eq_lit(&l, "wrayth") || text::eq_lit(&l, "stormfront") {
            Frontend::Wrayth
        } else if text::eq_lit(&l, "wizard") {
            Frontend::Wizard
        } else if text::eq_lit(&l, "avalon") {
            Frontend::Avalon
        } else if text::eq_lit(&l, "genie") {
            Frontend::Genie
        } else if text::eq_lit(&l, "frostbite") {
            Frontend::Frostbite
        } else if text::eq_lit(&l, "profanity") {
            Frontend::Profanity
        } else if text::eq_lit(&l, "mudlet") {
            Frontend::Mudlet
        } else {
            Frontend::Unknown
        }
    }

    pub open spec fn name_spec(self) -> Seq<char> {
        match self {
            Frontend::Wrayth => "wrayth"@,
            Frontend::Stormfront => "stormfront"@,
            Frontend::Wizard => "wizard"@,
            Frontend::Avalon => "avalon"@,
            Frontend::Genie => "genie"@,
            Frontend::Frostbite => "frostbite"@,
            Frontend::Profanity => "profanity"@,
            Frontend::Mudlet => "mudlet"@,
            Frontend::Unknown => "unknown"@,
        }
    }

    pub fn as_str(&self) -> (r: &'static str)
        ensures
            r@ == self.name_spec(),
    {
        match self {
            Frontend::Wrayth => "wrayth",
            Frontend::Stormfront => "stormfront",
            Frontend::Wizard => "wizard",
            Frontend::Avalon => "avalon",
            Frontend::Genie => "genie",
            Frontend::Frostbite => "frostbite",
            Frontend::Profanity => "profanity",
            Frontend::Mudlet => "mudlet",
            Frontend::Unknown => "unknown",
        }
    }

    /// The name shown for this front end (what `Display` printed).
    pub fn to_string(&self) -> (r: String)
        ensures
            r@ == self.name_spec(),
    {
        self.as_str().to_owned()
    }
}

impl Default for Frontend {
    fn default() -> (r: Self)
        ensures
            r == Frontend::Wrayth,
    {
        Frontend::Wrayth
    }
}

/// A front end's name parses back to the same front end, except that
/// `stormfront` is served as `Wrayth`.
pub proof fn lemma_name_round_trip(f: Frontend)
    ensures
        text::all_ascii(f.name_spec()),
        Frontend::from_lower(f.name_spec().map_values(|c: char| text::ascii_lower(c))) == (if f == Frontend::Stormfront {
            Frontend::Wrayth
        } else {
            f
        }),
{
    reveal_strlit("wrayth");
    reveal_strlit("stormfront");
    reveal_strlit("wizard");
    reveal_strlit("avalon");
    reveal_strlit("genie");
    reveal_strlit("frostbite");
    reveal_strlit("profanity");
    reveal_strlit("mudlet");
    reveal_strlit("unknown");
    assert(f.name_spec().map_values(|c: char| text::ascii_lower(c)) =~= f.name_spec());
    match f {
        Frontend::Stormfront => {
            assert("stormfront"@.len() != "wrayth"@.len());
        },
        Frontend::Wizard => {
            assert("wizard"@[1] != "wrayth"@[1]);
            assert("wizard"@.len() != "stormfront"@.len());
        },
        Frontend::Avalon => {
            assert("avalon"@[0] != "wrayth"@[0]);
            assert("avalon"@.len() != "stormfront"@.len());
            assert("avalon"@[0] != "wizard"@[0]);
        },
        Frontend::Genie => {
            assert("genie"@.len() != "wrayth"@.len());
            assert("genie"@.len() != "stormfront"@.len());
            assert("genie"@.len() != "wizard"@.len());
            assert("genie"@.len() != "avalon"@.len());
        },
        Frontend::Frostbite => {
            assert("frostbite"@.len() != "wrayth"@.len());
            assert("frostbite"@.len() != "stormfront"@.len());
            assert("frostbite"@.len() != "wizard"@.len());
            assert("frostbite"@.len() != "avalon"@.len());
            assert("frostbite"@.len() != "genie"@.len());
        },
        Frontend::Profanity => {
            assert("profanity"@.len() != "wrayth"@.len());
            assert("profanity"@.len() != "stormfront"@.len());
            assert("profanity"@.len() != "wizard"@.len());
            assert("profanity"@.len() != "avalon"@.len());
            assert("profanity"@.len() != "genie"@.len());
            assert("profanity"@[0] != "frostbite"@[0]);
        },
        Frontend::Mudlet => {
            assert("mudlet"@[0] != "wrayth"@[0]);
            assert("mudlet"@.len() != "stormfront"@.len());
            assert("mudlet"@[0] != "wizard"@[0]);
            assert("mudlet"@[0] != "avalon"@[0]);
            assert("mudlet"@.len() != "genie"@.len());
            assert("mudlet"@.len() != "frostbite"@.len());
            assert("mudlet"@.len() != "profanity"@.len());
        },
        Frontend::Unknown => {
            assert("unknown"@.len() != "wrayth"@.len());
            assert("unknown"@.len() != "stormfront"@.len());
            assert("unknown"@.len() != "wizard"@.len());
            assert("unknown"@.len() != "avalon"@.len());
            assert("unknown"@.len() != "genie"@.len());
            assert("unknown"@.len() != "frostbite"@.len());
            assert("unknown"@.len() != "profanity"@.len());
            assert("unknown"@.len() != "mudlet"@.len());
        },
        _ => {},
    }
}

} // verus!
