//! Game state assembled from parsed XML events.
use vstd::prelude::*;
use crate::text;

verus! {

/// The game a session is connected to.
#[derive(Debug, Clone, Copy, PartialEq, Eq, Structural)]
pub enum Game {
    GemStone,
    DragonRealms,
}

impl Game {
    /// The default game: GemStone.
    pub fn default_game() -> (g: Game)
        ensures
            g == Game::GemStone,
    {
        Game::GemStone
    }

    /// The game for a game code such as `GS3` or `DR`: a code that starts
    /// with `DR` names DragonRealms, any other code GemStone.
    pub fn from_code(code: &str) -> (g: Game)
        ensures
            g == Game::from_code_spec(code@),
    {
        let c = text::chars_of(code);
        if text::starts_with_lit(&c, "DR") {
            Game::DragonRealms
        } else {
            Game::GemStone
        }
    }

    pub open spec fn from_code_spec(code: Seq<char>) -> Game {
        if text::starts_with(code, "DR"@) {
            Game::DragonRealms
        } else {
            Game::GemStone
        }
    }

    pub fn as_str(&self) -> (s: &'static str)
        ensures
            s@ == match self {
                Game::GemStone => "GS"@,
                Game::DragonRealms => "DR"@,
            },
    {
        match self {
            Game::GemStone => "GS",
            Game::DragonRealms => "DR",
        }
    }
}

impl Default for Game {
    fn default() -> (g: Game)
        ensures
            g == Game::GemStone,
    {
        Game::GemStone
    }
}

} // verus!

verus! {

use crate::xml_parser::XmlEvent;

/// Combat stance. `Unset` is the state before the game has reported one.
#[derive(Debug, Clone, Copy, PartialEq, Eq, Structural)]
pub enum Stance {
    Unset,
    Offensive,
    Advance,
    Forward,
    Neutral,
    Guarded,
    Defensive,
}

impl Stance {
    pub open spec fn name_spec(self) -> Option<Seq<char>> {
        match self {
            Stance::Unset => None,
            Stance::Offensive => Some("offensive"@),
            Stance::Advance => Some("advance"@),
            Stance::Forward => Some("forward"@),
            Stance::Neutral => Some("neutral"@),
            Stance::Guarded => Some("guarded"@),
            Stance::Defensive => Some("defensive"@),
        }
    }

    pub open spec fn value_spec(self) -> Option<i64> {
        match self {
            Stance::Unset => None,
            Stance::Offensive => Some(100),
            Stance::Advance => Some(80),
            Stance::Forward => Some(60),
            Stance::Neutral => Some(40),
            Stance::Guarded => Some(20),
            Stance::Defensive => Some(0),
        }
    }

    pub fn as_str(&self) -> (r: Option<&'static str>)
        ensures
            match r {
                Some(s) => self.name_spec() == Some(s@),
                None => self.name_spec() is None,
            },
    {
        match self {
            Stance::Unset => None,
            Stance::Offensive => Some("offensive"),
            Stance::Advance => Some("advance"),
            Stance::Forward => Some("forward"),
            Stance::Neutral => Some("neutral"),
            Stance::Guarded => Some("guarded"),
            Stance::Defensive => Some("defensive"),
        }
    }

    pub fn to_value(&self) -> (r: Option<i64>)
        ensures
            r == self.value_spec(),
    {
        match self {
            Stance::Unset => None,
            Stance::Offensive => Some(100),
            Stance::Advance => Some(80),
            Stance::Forward => Some(60),
            Stance::Neutral => Some(40),
            Stance::Guarded => Some(20),
            Stance::Defensive => Some(0),
        }
    }
}

#[derive(Debug, Clone, Copy, PartialEq, Eq, Structural)]
pub enum MindState {
    Clear,
    Dabbling,
    Awakening,
    Thinking,
    Considering,
    Pondering,
    Ruminating,
    Focusing,
    Deliberating,
    Concentrating,
    Attentive,
    Distracted,
    Muddled,
    BecomingFuzzy,
    Fuzzy,
    SlightlyDizzy,
    Dizzy,
    VeryDizzy,
    Ropy,
    Stunned,
}

impl MindState {
    pub open spec fn name_spec(self) -> Seq<char> {
        match self {
            MindState::Clear => "clear"@,
            MindState::Dabbling => "dabbling"@,
            MindState::Awakening => "awakening"@,
            MindState::Thinking => "thinking"@,
            MindState::Considering => "considering"@,
            MindState::Pondering => "pondering"@,
            MindState::Ruminating => "ruminating"@,
            MindState::Focusing => "focusing"@,
            MindState::Deliberating => "deliberating"@,
            MindState::Concentrating => "concentrating"@,
            MindState::Attentive => "attentive"@,
            MindState::Distracted => "distracted"@,
            MindState::Muddled => "muddled"@,
            MindState::BecomingFuzzy => "becoming fuzzy"@,
            MindState::Fuzzy => "fuzzy"@,
            MindState::SlightlyDizzy => "slightly dizzy"@,
            MindState::Dizzy => "dizzy"@,
            MindState::VeryDizzy => "very dizzy"@,
            MindState::Ropy => "ropy"@,
            MindState::Stunned => "stunned"@,
        }
    }

    /// Percentage of the mind's capacity: 5 per state from `Clear` (0) to
    /// `Ropy` (90), and 100 for `Stunned`.
    pub open spec fn value_spec(self) -> i64 {
        match self {
            MindState::Clear => 0,
            MindState::Dabbling => 5,
            MindState::Awakening => 10,
            MindState::Thinking => 15,
            MindState::Considering => 20,
            MindState::Pondering => 25,
            MindState::Ruminating => 30,
            MindState::Focusing => 35,
            MindState::Deliberating => 40,
            MindState::Concentrating => 45,
            MindState::Attentive => 50,
            MindState::Distracted => 55,
            MindState::Muddled => 60,
            MindState::BecomingFuzzy => 65,
            MindState::Fuzzy => 70,
            MindState::SlightlyDizzy => 75,
            MindState::Dizzy => 80,
            MindState::VeryDizzy => 85,
            MindState::Ropy => 90,
            MindState::Stunned => 100,
        }
    }

    pub fn as_str(&self) -> (r: &'static str)
        ensures
            r@ == self.name_spec(),
    {
        match self {
            MindState::Clear => "clear",
            MindState::Dabbling => "dabbling",
            MindState::Awakening => "awakening",
            MindState::Thinking => "thinking",
            MindState::Considering => "considering",
            MindState::Pondering => "pondering",
            MindState::Ruminating => "ruminating",
            MindState::Focusing => "focusing",
            MindState::Deliberating => "deliberating",
            MindState::Concentrating => "concentrating",
            MindState::Attentive => "attentive",
            MindState::Distracted => "distracted",
            MindState::Muddled => "muddled",
            MindState::BecomingFuzzy => "becoming fuzzy",
            MindState::Fuzzy => "fuzzy",
            MindState::SlightlyDizzy => "slightly dizzy",
            MindState::Dizzy => "dizzy",
            MindState::VeryDizzy => "very dizzy",
            MindState::Ropy => "ropy",
            MindState::Stunned => "stunned",
        }
    }

    pub fn to_value(&self) -> (r: i64)
        ensures
            r == self.value_spec(),
    {
        match self {
            MindState::Clear => 0,
            MindState::Dabbling => 5,
            MindState::Awakening => 10,
            MindState::Thinking => 15,
            MindState::Considering => 20,
            MindState::Pondering => 25,
            MindState::Ruminating => 30,
            MindState::Focusing => 35,
            MindState::Deliberating => 40,
            MindState::Concentrating => 45,
            MindState::Attentive => 50,
            MindState::Distracted => 55,
            MindState::Muddled => 60,
            MindState::BecomingFuzzy => 65,
            MindState::Fuzzy => 70,
            MindState::SlightlyDizzy => 75,
            MindState::Dizzy => 80,
            MindState::VeryDizzy => 85,
            MindState::Ropy => 90,
            MindState::Stunned => 100,
        }
    }
}

/// Encumbrance. `Unburdened` is carrying nothing of note.
#[derive(Debug, Clone, Copy, PartialEq, Eq, Structural)]
pub enum EncumbranceState {
    Unburdened,
    Light,
    Moderate,
    Heavy,
    VeryHeavy,
    Overburdened,
}

impl EncumbranceState {
    pub open spec fn name_spec(self) -> Seq<char> {
        match self {
            EncumbranceState::Unburdened => "none"@,
            EncumbranceState::Light => "light"@,
            EncumbranceState::Moderate => "moderate"@,
            EncumbranceState::Heavy => "heavy"@,
            EncumbranceState::VeryHeavy => "very heavy"@,
            EncumbranceState::Overburdened => "overburdened"@,
        }
    }

    pub open spec fn value_spec(self) -> i64 {
        match self {
            EncumbranceState::Unburdened => 0,
            EncumbranceState::Light => 1,
            EncumbranceState::Moderate => 2,
            EncumbranceState::Heavy => 3,
            EncumbranceState::VeryHeavy => 4,
            EncumbranceState::Overburdened => 5,
        }
    }

    pub fn as_str(&self) -> (r: &'static str)
        ensures
            r@ == self.name_spec(),
    {
        match self {
            EncumbranceState::Unburdened => "none",
            EncumbranceState::Light => "light",
            EncumbranceState::Moderate => "moderate",
            EncumbranceState::Heavy => "heavy",
            EncumbranceState::VeryHeavy => "very heavy",
            EncumbranceState::Overburdened => "overburdened",
        }
    }

    pub fn to_value(&self) -> (r: i64)
        ensures
            r == self.value_spec(),
    {
        match self {
            EncumbranceState::Unburdened => 0,
            EncumbranceState::Light => 1,
            EncumbranceState::Moderate => 2,
            EncumbranceState::Heavy => 3,
            EncumbranceState::VeryHeavy => 4,
            EncumbranceState::Overburdened => 5,
        }
    }
}

#[derive(Debug, Clone)]
pub struct ActiveSpell {
    pub name: String,
    pub duration_secs: Option<u32>,
}

/// Wound or scar severity for each of 16 body parts (0 = none, 1-3 = severity).
#[derive(Debug, Clone, Copy, PartialEq, Eq, Structural)]
pub struct BodyInjuries {
    pub head: u8,
    pub neck: u8,
    pub back: u8,
    pub chest: u8,
    pub abdomen: u8,
    pub left_eye: u8,
    pub right_eye: u8,
    pub left_arm: u8,
    pub right_arm: u8,
    pub left_hand: u8,
    pub right_hand: u8,
    pub left_leg: u8,
    pub right_leg: u8,
    pub left_foot: u8,
    pub right_foot: u8,
    pub nsys: u8,
}

impl BodyInjuries {
    /// No injuries anywhere.
    pub fn new() -> (b: BodyInjuries)
        ensures
            b == BodyInjuries::none(),
    {
        BodyInjuries {
            head: 0,
            neck: 0,
            back: 0,
            chest: 0,
            abdomen: 0,
            left_eye: 0,
            right_eye: 0,
            left_arm: 0,
            right_arm: 0,
            left_hand: 0,
            right_hand: 0,
            left_leg: 0,
            right_leg: 0,
            left_foot: 0,
            right_foot: 0,
            nsys: 0,
        }
    }

    pub open spec fn none() -> BodyInjuries {
        BodyInjuries {
            head: 0,
            neck: 0,
            back: 0,
            chest: 0,
            abdomen: 0,
            left_eye: 0,
            right_eye: 0,
            left_arm: 0,
            right_arm: 0,
            left_hand: 0,
            right_hand: 0,
            left_leg: 0,
            right_leg: 0,
            left_foot: 0,
            right_foot: 0,
            nsys: 0,
        }
    }

    /// The record after setting the part with XML id `id` to `sev`, and
    /// whether the id names a body part (the record is unchanged when not).
    pub open spec fn set_spec(self, id: Seq<char>, sev: u8) -> (BodyInjuries, bool) {
        if id == "head"@ {
            (BodyInjuries { head: sev, ..self }, true)
        } else if id == "neck"@ {
            (BodyInjuries { neck: sev, ..self }, true)
        } else if id == "back"@ {
            (BodyInjuries { back: sev, ..self }, true)
        } else if id == "chest"@ {
            (BodyInjuries { chest: sev, ..self }, true)
        } else if id == "abdomen"@ {
            (BodyInjuries { abdomen: sev, ..self }, true)
        } else if id == "leftEye"@ {
            (BodyInjuries { left_eye: sev, ..self }, true)
        } else if id == "rightEye"@ {
            (BodyInjuries { right_eye: sev, ..self }, true)
        } else if id == "leftArm"@ {
            (BodyInjuries { left_arm: sev, ..self }, true)
        } else if id == "rightArm"@ {
            (BodyInjuries { right_arm: sev, ..self }, true)
        } else if id == "leftHand"@ {
            (BodyInjuries { left_hand: sev, ..self }, true)
        } else if id == "rightHand"@ {
            (BodyInjuries { right_hand: sev, ..self }, true)
        } else if id == "leftLeg"@ {
            (BodyInjuries { left_leg: sev, ..self }, true)
        } else if id == "rightLeg"@ {
            (BodyInjuries { right_leg: sev, ..self }, true)
        } else if id == "leftFoot"@ {
            (BodyInjuries { left_foot: sev, ..self }, true)
        } else if id == "rightFoot"@ {
            (BodyInjuries { right_foot: sev, ..self }, true)
        } else if id == "nsys"@ {
            (BodyInjuries { nsys: sev, ..self }, true)
        } else {
            (self, false)
        }
    }

    /// Set the severity for a body part by its XML id string.
    /// Returns false if the id is not recognized.
    pub fn set(&mut self, xml_id: &str, severity: u8) -> (r: bool)
        ensures
            (*final(self), r) == old(self).set_spec(xml_id@, severity),
    {
        let id = text::chars_of(xml_id);
        if text::eq_lit(&id, "head") {
            self.head = severity;
        } else if text::eq_lit(&id, "neck") {
            self.neck = severity;
        } else if text::eq_lit(&id, "back") {
            self.back = severity;
        } else if text::eq_lit(&id, "chest") {
            self.chest = severity;
        } else if text::eq_lit(&id, "abdomen") {
            self.abdomen = severity;
        } else if text::eq_lit(&id, "leftEye") {
            self.left_eye = severity;
        } else if text::eq_lit(&id, "rightEye") {
            self.right_eye = severity;
        } else if text::eq_lit(&id, "leftArm") {
            self.left_arm = severity;
        } else if text::eq_lit(&id, "rightArm") {
            self.right_arm = severity;
        } else if text::eq_lit(&id, "leftHand") {
            self.left_hand = severity;
        } else if text::eq_lit(&id, "rightHand") {
            self.right_hand = severity;
        } else if text::eq_lit(&id, "leftLeg") {
            self.left_leg = severity;
        } else if text::eq_lit(&id, "rightLeg") {
            self.right_leg = severity;
        } else if text::eq_lit(&id, "leftFoot") {
            self.left_foot = severity;
        } else if text::eq_lit(&id, "rightFoot") {
            self.right_foot = severity;
        } else if text::eq_lit(&id, "nsys") {
            self.nsys = severity;
        } else {
            return false;
        }
        true
    }

    /// The severity stored under a Lua key (snake_case, camelCase or short
    /// form), if the key names a body part.
    pub open spec fn get_spec(self, k: Seq<char>) -> Option<u8> {
        if k == "head"@ {
            Some(self.head)
        } else if k == "neck"@ {
            Some(self.neck)
        } else if k == "back"@ {
            Some(self.back)
        } else if k == "chest"@ {
            Some(self.chest)
        } else if k == "abdomen"@ || k == "abs"@ {
            Some(self.abdomen)
        } else if k == "left_eye"@ || k == "leftEye"@ || k == "leye"@ {
            Some(self.left_eye)
        } else if k == "right_eye"@ || k == "rightEye"@ || k == "reye"@ {
            Some(self.right_eye)
        } else if k == "left_arm"@ || k == "leftArm"@ || k == "larm"@ {
            Some(self.left_arm)
        } else if k == "right_arm"@ || k == "rightArm"@ || k == "rarm"@ {
            Some(self.right_arm)
        } else if k == "left_hand"@ || k == "leftHand"@ || k == "lhand"@ {
            Some(self.left_hand)
        } else if k == "right_hand"@ || k == "rightHand"@ || k == "rhand"@ {
            Some(self.right_hand)
        } else if k == "left_leg"@ || k == "leftLeg"@ || k == "lleg"@ {
            Some(self.left_leg)
        } else if k == "right_leg"@ || k == "rightLeg"@ || k == "rleg"@ {
            Some(self.right_leg)
        } else if k == "left_foot"@ || k == "leftFoot"@ || k == "lfoot"@ {
            Some(self.left_foot)
        } else if k == "right_foot"@ || k == "rightFoot"@ || k == "rfoot"@ {
            Some(self.right_foot)
        } else if k == "nsys"@ || k == "nerves"@ {
            Some(self.nsys)
        } else {
            None
        }
    }

    /// Get severity by Lua key (snake_case or camelCase).
    pub fn get(&self, key: &str) -> (r: Option<u8>)
        ensures
            r == self.get_spec(key@),
    {
        let k = text::chars_of(key);
        if text::eq_lit(&k, "head") {
            Some(self.head)
        } else if text::eq_lit(&k, "neck") {
            Some(self.neck)
        } else if text::eq_lit(&k, "back") {
            Some(self.back)
        } else if text::eq_lit(&k, "chest") {
            Some(self.chest)
        } else if text::eq_lit(&k, "abdomen") || text::eq_lit(&k, "abs") {
            Some(self.abdomen)
        } else if text::eq_lit(&k, "left_eye") || text::eq_lit(&k, "leftEye") || text::eq_lit(&k, "leye") {
            Some(self.left_eye)
        } else if text::eq_lit(&k, "right_eye") || text::eq_lit(&k, "rightEye") || text::eq_lit(&k, "reye") {
            Some(self.right_eye)
        } else if text::eq_lit(&k, "left_arm") || text::eq_lit(&k, "leftArm") || text::eq_lit(&k, "larm") {
            Some(self.left_arm)
        } else if text::eq_lit(&k, "right_arm") || text::eq_lit(&k, "rightArm") || text::eq_lit(&k, "rarm") {
            Some(self.right_arm)
        } else if text::eq_lit(&k, "left_hand") || text::eq_lit(&k, "leftHand") || text::eq_lit(&k, "lhand") {
            Some(self.left_hand)
        } else if text::eq_lit(&k, "right_hand") || text::eq_lit(&k, "rightHand") || text::eq_lit(&k, "rhand") {
            Some(self.right_hand)
        } else if text::eq_lit(&k, "left_leg") || text::eq_lit(&k, "leftLeg") || text::eq_lit(&k, "lleg") {
            Some(self.left_leg)
        } else if text::eq_lit(&k, "right_leg") || text::eq_lit(&k, "rightLeg") || text::eq_lit(&k, "rleg") {
            Some(self.right_leg)
        } else if text::eq_lit(&k, "left_foot") || text::eq_lit(&k, "leftFoot") || text::eq_lit(&k, "lfoot") {
            Some(self.left_foot)
        } else if text::eq_lit(&k, "right_foot") || text::eq_lit(&k, "rightFoot") || text::eq_lit(&k, "rfoot") {
            Some(self.right_foot)
        } else if text::eq_lit(&k, "nsys") || text::eq_lit(&k, "nerves") {
            Some(self.nsys)
        } else {
            None
        }
    }
}

/// The body part (numbered head first, nervous system last) that the XML
/// id `x` names, if any.
pub open spec fn part_of_id(x: Seq<char>) -> Option<int> {
    if x == "head"@ {
        Some(0)
    } else if x == "neck"@ {
        Some(1)
    } else if x == "back"@ {
        Some(2)
    } else if x == "chest"@ {
        Some(3)
    } else if x == "abdomen"@ {
        Some(4)
    } else if x == "leftEye"@ {
        Some(5)
    } else if x == "rightEye"@ {
        Some(6)
    } else if x == "leftArm"@ {
        Some(7)
    } else if x == "rightArm"@ {
        Some(8)
    } else if x == "leftHand"@ {
        Some(9)
    } else if x == "rightHand"@ {
        Some(10)
    } else if x == "leftLeg"@ {
        Some(11)
    } else if x == "rightLeg"@ {
        Some(12)
    } else if x == "leftFoot"@ {
        Some(13)
    } else if x == "rightFoot"@ {
        Some(14)
    } else if x == "nsys"@ {
        Some(15)
    } else {
        None
    }
}

/// The body part that the key `k` (or one of its aliases) names, if any.
pub open spec fn part_of_key(k: Seq<char>) -> Option<int> {
    if k == "head"@ {
        Some(0)
    } else if k == "neck"@ {
        Some(1)
    } else if k == "back"@ {
        Some(2)
    } else if k == "chest"@ {
        Some(3)
    } else if k == "abdomen"@ || k == "abs"@ {
        Some(4)
    } else if k == "left_eye"@ || k == "leftEye"@ || k == "leye"@ {
        Some(5)
    } else if k == "right_eye"@ || k == "rightEye"@ || k == "reye"@ {
        Some(6)
    } else if k == "left_arm"@ || k == "leftArm"@ || k == "larm"@ {
        Some(7)
    } else if k == "right_arm"@ || k == "rightArm"@ || k == "rarm"@ {
        Some(8)
    } else if k == "left_hand"@ || k == "leftHand"@ || k == "lhand"@ {
        Some(9)
    } else if k == "right_hand"@ || k == "rightHand"@ || k == "rhand"@ {
        Some(10)
    } else if k == "left_leg"@ || k == "leftLeg"@ || k == "lleg"@ {
        Some(11)
    } else if k == "right_leg"@ || k == "rightLeg"@ || k == "rleg"@ {
        Some(12)
    } else if k == "left_foot"@ || k == "leftFoot"@ || k == "lfoot"@ {
        Some(13)
    } else if k == "right_foot"@ || k == "rightFoot"@ || k == "rfoot"@ {
        Some(14)
    } else if k == "nsys"@ || k == "nerves"@ {
        Some(15)
    } else {
        None
    }
}

/// Each XML id of a body part is itself a key for that part.
proof fn lemma_id_is_key(x: Seq<char>)
    requires
        part_of_id(x) is Some,
    ensures
        part_of_key(x) == part_of_id(x),
{
    reveal_strlit("head");
    reveal_strlit("neck");
    reveal_strlit("back");
    reveal_strlit("chest");
    reveal_strlit("abdomen");
    reveal_strlit("abs");
    reveal_strlit("left_eye");
    reveal_strlit("leftEye");
    reveal_strlit("leye");
    reveal_strlit("right_eye");
    reveal_strlit("rightEye");
    reveal_strlit("reye");
    reveal_strlit("left_arm");
    reveal_strlit("leftArm");
    reveal_strlit("larm");
    reveal_strlit("right_arm");
    reveal_strlit("rightArm");
    reveal_strlit("rarm");
    reveal_strlit("left_hand");
    reveal_strlit("leftHand");
    reveal_strlit("lhand");
    reveal_strlit("right_hand");
    reveal_strlit("rightHand");
    reveal_strlit("rhand");
    reveal_strlit("left_leg");
    reveal_strlit("leftLeg");
    reveal_strlit("lleg");
    reveal_strlit("right_leg");
    reveal_strlit("rightLeg");
    reveal_strlit("rleg");
    reveal_strlit("left_foot");
    reveal_strlit("leftFoot");
    reveal_strlit("lfoot");
    reveal_strlit("right_foot");
    reveal_strlit("rightFoot");
    reveal_strlit("rfoot");
    reveal_strlit("nsys");
    reveal_strlit("nerves");
    if x == "head"@ {
        assert(part_of_key(x) == Some(0int));
    } else if x == "neck"@ {
        assert("neck"@[0] != "head"@[0]);
        assert(x != "head"@);
        assert(part_of_key(x) == Some(1int));
    } else if x == "back"@ {
        assert("back"@[0] != "head"@[0]);
        assert(x != "head"@);
        assert("back"@[0] != "neck"@[0]);
        assert(x != "neck"@);
        assert(part_of_key(x) == Some(2int));
    } else if x == "chest"@ {
        assert("chest"@.len() != "head"@.len());
        assert(x != "head"@);
        assert("chest"@.len() != "neck"@.len());
        assert(x != "neck"@);
        assert("chest"@.len() != "back"@.len());
        assert(x != "back"@);
        assert(part_of_key(x) == Some(3int));
    } else if x == "abdomen"@ {
        assert("abdomen"@.len() != "head"@.len());
        assert(x != "head"@);
        assert("abdomen"@.len() != "neck"@.len());
        assert(x != "neck"@);
        assert("abdomen"@.len() != "back"@.len());
        assert(x != "back"@);
        assert("abdomen"@.len() != "chest"@.len());
        assert(x != "chest"@);
        assert(part_of_key(x) == Some(4int));
    } else if x == "leftEye"@ {
        assert("leftEye"@.len() != "head"@.len());
        assert(x != "head"@);
        assert("leftEye"@.len() != "neck"@.len());
        assert(x != "neck"@);
        assert("leftEye"@.len() != "back"@.len());
        assert(x != "back"@);
        assert("leftEye"@.len() != "chest"@.len());
        assert(x != "chest"@);
        assert("leftEye"@[0] != "abdomen"@[0]);
        assert(x != "abdomen"@);
        assert("leftEye"@.len() != "abs"@.len());
        assert(x != "abs"@);
        assert("leftEye"@.len() != "left_eye"@.len());
        assert(x != "left_eye"@);
        assert(part_of_key(x) == Some(5int));
    } else if x == "rightEye"@ {
        assert("rightEye"@.len() != "head"@.len());
        assert(x != "head"@);
        assert("rightEye"@.len() != "neck"@.len());
        assert(x != "neck"@);
        assert("rightEye"@.len() != "back"@.len());
        assert(x != "back"@);
        assert("rightEye"@.len() != "chest"@.len());
        assert(x != "chest"@);
        assert("rightEye"@.len() != "abdomen"@.len());
        assert(x != "abdomen"@);
        assert("rightEye"@.len() != "abs"@.len());
        assert(x != "abs"@);
        assert("rightEye"@[0] != "left_eye"@[0]);
        assert(x != "left_eye"@);
        assert("rightEye"@.len() != "leftEye"@.len());
        assert(x != "leftEye"@);
        assert("rightEye"@.len() != "leye"@.len());
        assert(x != "leye"@);
        assert("rightEye"@.len() != "right_eye"@.len());
        assert(x != "right_eye"@);
        assert(part_of_key(x) == Some(6int));
    } else if x == "leftArm"@ {
        assert("leftArm"@.len() != "head"@.len());
        assert(x != "head"@);
        assert("leftArm"@.len() != "neck"@.len());
        assert(x != "neck"@);
        assert("leftArm"@.len() != "back"@.len());
        assert(x != "back"@);
        assert("leftArm"@.len() != "chest"@.len());
        assert(x != "chest"@);
        assert("leftArm"@[0] != "abdomen"@[0]);
        assert(x != "abdomen"@);
        assert("leftArm"@.len() != "abs"@.len());
        assert(x != "abs"@);
        assert("leftArm"@.len() != "left_eye"@.len());
        assert(x != "left_eye"@);
        assert("leftArm"@[4] != "leftEye"@[4]);
        assert(x != "leftEye"@);
        assert("leftArm"@.len() != "leye"@.len());
        assert(x != "leye"@);
        assert("leftArm"@.len() != "right_eye"@.len());
        assert(x != "right_eye"@);
        assert("leftArm"@.len() != "rightEye"@.len());
        assert(x != "rightEye"@);
        assert("leftArm"@.len() != "reye"@.len());
        assert(x != "reye"@);
        assert("leftArm"@.len() != "left_arm"@.len());
        assert(x != "left_arm"@);
        assert(part_of_key(x) == Some(7int));
    } else if x == "rightArm"@ {
        assert("rightArm"@.len() != "head"@.len());
        assert(x != "head"@);
        assert("rightArm"@.len() != "neck"@.len());
        assert(x != "neck"@);
        assert("rightArm"@.len() != "back"@.len());
        assert(x != "back"@);
        assert("rightArm"@.len() != "chest"@.len());
        assert(x != "chest"@);
        assert("rightArm"@.len() != "abdomen"@.len());
        assert(x != "abdomen"@);
        assert("rightArm"@.len() != "abs"@.len());
        assert(x != "abs"@);
        assert("rightArm"@[0] != "left_eye"@[0]);
        assert(x != "left_eye"@);
        assert("rightArm"@.len() != "leftEye"@.len());
        assert(x != "leftEye"@);
        assert("rightArm"@.len() != "leye"@.len());
        assert(x != "leye"@);
        assert("rightArm"@.len() != "right_eye"@.len());
        assert(x != "right_eye"@);
        assert("rightArm"@[5] != "rightEye"@[5]);
        assert(x != "rightEye"@);
        assert("rightArm"@.len() != "reye"@.len());
        assert(x != "reye"@);
        assert("rightArm"@[0] != "left_arm"@[0]);
        assert(x != "left_arm"@);
        assert("rightArm"@.len() != "leftArm"@.len());
        assert(x != "leftArm"@);
        assert("rightArm"@.len() != "larm"@.len());
        assert(x != "larm"@);
        assert("rightArm"@.len() != "right_arm"@.len());
        assert(x != "right_arm"@);
        assert(part_of_key(x) == Some(8int));
    } else if x == "leftHand"@ {
        assert("leftHand"@.len() != "head"@.len());
        assert(x != "head"@);
        assert("leftHand"@.len() != "neck"@.len());
        assert(x != "neck"@);
        assert("leftHand"@.len() != "back"@.len());
        assert(x != "back"@);
        assert("leftHand"@.len() != "chest"@.len());
        assert(x != "chest"@);
        assert("leftHand"@.len() != "abdomen"@.len());
        assert(x != "abdomen"@);
        assert("leftHand"@.len() != "abs"@.len());
        assert(x != "abs"@);
        assert("leftHand"@[4] != "left_eye"@[4]);
        assert(x != "left_eye"@);
        assert("leftHand"@.len() != "leftEye"@.len());
        assert(x != "leftEye"@);
        assert("leftHand"@.len() != "leye"@.len());
        assert(x != "leye"@);
        assert("leftHand"@.len() != "right_eye"@.len());
        assert(x != "right_eye"@);
        assert("leftHand"@[0] != "rightEye"@[0]);
        assert(x != "rightEye"@);
        assert("leftHand"@.len() != "reye"@.len());
        assert(x != "reye"@);
        assert("leftHand"@[4] != "left_arm"@[4]);
        assert(x != "left_arm"@);
        assert("leftHand"@.len() != "leftArm"@.len());
        assert(x != "leftArm"@);
        assert("leftHand"@.len() != "larm"@.len());
        assert(x != "larm"@);
        assert("leftHand"@.len() != "right_arm"@.len());
        assert(x != "right_arm"@);
        assert("leftHand"@[0] != "rightArm"@[0]);
        assert(x != "rightArm"@);
        assert("leftHand"@.len() != "rarm"@.len());
        assert(x != "rarm"@);
        assert("leftHand"@.len() != "left_hand"@.len());
        assert(x != "left_hand"@);
        assert(part_of_key(x) == Some(9int));
    } else if x == "rightHand"@ {
        assert("rightHand"@.len() != "head"@.len());
        assert(x != "head"@);
        assert("rightHand"@.len() != "neck"@.len());
        assert(x != "neck"@);
        assert("rightHand"@.len() != "back"@.len());
        assert(x != "back"@);
        assert("rightHand"@.len() != "chest"@.len());
        assert(x != "chest"@);
        assert("rightHand"@.len() != "abdomen"@.len());
        assert(x != "abdomen"@);
        assert("rightHand"@.len() != "abs"@.len());
        assert(x != "abs"@);
        assert("rightHand"@.len() != "left_eye"@.len());
        assert(x != "left_eye"@);
        assert("rightHand"@.len() != "leftEye"@.len());
        assert(x != "leftEye"@);
        assert("rightHand"@.len() != "leye"@.len());
        assert(x != "leye"@);
        assert("rightHand"@[5] != "right_eye"@[5]);
        assert(x != "right_eye"@);
        assert("rightHand"@.len() != "rightEye"@.len());
        assert(x != "rightEye"@);
        assert("rightHand"@.len() != "reye"@.len());
        assert(x != "reye"@);
        assert("rightHand"@.len() != "left_arm"@.len());
        assert(x != "left_arm"@);
        assert("rightHand"@.len() != "leftArm"@.len());
        assert(x != "leftArm"@);
        assert("rightHand"@.len() != "larm"@.len());
        assert(x != "larm"@);
        assert("rightHand"@[5] != "right_arm"@[5]);
        assert(x != "right_arm"@);
        assert("rightHand"@.len() != "rightArm"@.len());
        assert(x != "rightArm"@);
        assert("rightHand"@.len() != "rarm"@.len());
        assert(x != "rarm"@);
        assert("rightHand"@[0] != "left_hand"@[0]);
        assert(x != "left_hand"@);
        assert("rightHand"@.len() != "leftHand"@.len());
        assert(x != "leftHand"@);
        assert("rightHand"@.len() != "lhand"@.len());
        assert(x != "lhand"@);
        assert("rightHand"@.len() != "right_hand"@.len());
        assert(x != "right_hand"@);
        assert(part_of_key(x) == Some(10int));
    } else if x == "leftLeg"@ {
        assert("leftLeg"@.len() != "head"@.len());
        assert(x != "head"@);
        assert("leftLeg"@.len() != "neck"@.len());
        assert(x != "neck"@);
        assert("leftLeg"@.len() != "back"@.len());
        assert(x != "back"@);
        assert("leftLeg"@.len() != "chest"@.len());
        assert(x != "chest"@);
        assert("leftLeg"@[0] != "abdomen"@[0]);
        assert(x != "abdomen"@);
        assert("leftLeg"@.len() != "abs"@.len());
        assert(x != "abs"@);
        assert("leftLeg"@.len() != "left_eye"@.len());
        assert(x != "left_eye"@);
        assert("leftLeg"@[4] != "leftEye"@[4]);
        assert(x != "leftEye"@);
        assert("leftLeg"@.len() != "leye"@.len());
        assert(x != "leye"@);
        assert("leftLeg"@.len() != "right_eye"@.len());
        assert(x != "right_eye"@);
        assert("leftLeg"@.len() != "rightEye"@.len());
        assert(x != "rightEye"@);
        assert("leftLeg"@.len() != "reye"@.len());
        assert(x != "reye"@);
        assert("leftLeg"@.len() != "left_arm"@.len());
        assert(x != "left_arm"@);
        assert("leftLeg"@[4] != "leftArm"@[4]);
        assert(x != "leftArm"@);
        assert("leftLeg"@.len() != "larm"@.len());
        assert(x != "larm"@);
        assert("leftLeg"@.len() != "right_arm"@.len());
        assert(x != "right_arm"@);
        assert("leftLeg"@.len() != "rightArm"@.len());
        assert(x != "rightArm"@);
        assert("leftLeg"@.len() != "rarm"@.len());
        assert(x != "rarm"@);
        assert("leftLeg"@.len() != "left_hand"@.len());
        assert(x != "left_hand"@);
        assert("leftLeg"@.len() != "leftHand"@.len());
        assert(x != "leftHand"@);
        assert("leftLeg"@.len() != "lhand"@.len());
        assert(x != "lhand"@);
        assert("leftLeg"@.len() != "right_hand"@.len());
        assert(x != "right_hand"@);
        assert("leftLeg"@.len() != "rightHand"@.len());
        assert(x != "rightHand"@);
        assert("leftLeg"@.len() != "rhand"@.len());
        assert(x != "rhand"@);
        assert("leftLeg"@.len() != "left_leg"@.len());
        assert(x != "left_leg"@);
        assert(part_of_key(x) == Some(11int));
    } else if x == "rightLeg"@ {
        assert("rightLeg"@.len() != "head"@.len());
        assert(x != "head"@);
        assert("rightLeg"@.len() != "neck"@.len());
        assert(x != "neck"@);
        assert("rightLeg"@.len() != "back"@.len());
        assert(x != "back"@);
        assert("rightLeg"@.len() != "chest"@.len());
        assert(x != "chest"@);
        assert("rightLeg"@.len() != "abdomen"@.len());
        assert(x != "abdomen"@);
        assert("rightLeg"@.len() != "abs"@.len());
        assert(x != "abs"@);
        assert("rightLeg"@[0] != "left_eye"@[0]);
        assert(x != "left_eye"@);
        assert("rightLeg"@.len() != "leftEye"@.len());
        assert(x != "leftEye"@);
        assert("rightLeg"@.len() != "leye"@.len());
        assert(x != "leye"@);
        assert("rightLeg"@.len() != "right_eye"@.len());
        assert(x != "right_eye"@);
        assert("rightLeg"@[5] != "rightEye"@[5]);
        assert(x != "rightEye"@);
        assert("rightLeg"@.len() != "reye"@.len());
        assert(x != "reye"@);
        assert("rightLeg"@[0] != "left_arm"@[0]);
        assert(x != "left_arm"@);
        assert("rightLeg"@.len() != "leftArm"@.len());
        assert(x != "leftArm"@);
        assert("rightLeg"@.len() != "larm"@.len());
        assert(x != "larm"@);
        assert("rightLeg"@.len() != "right_arm"@.len());
        assert(x != "right_arm"@);
        assert("rightLeg"@[5] != "rightArm"@[5]);
        assert(x != "rightArm"@);
        assert("rightLeg"@.len() != "rarm"@.len());
        assert(x != "rarm"@);
        assert("rightLeg"@.len() != "left_hand"@.len());
        assert(x != "left_hand"@);
        assert("rightLeg"@[0] != "leftHand"@[0]);
        assert(x != "leftHand"@);
        assert("rightLeg"@.len() != "lhand"@.len());
        assert(x != "lhand"@);
        assert("rightLeg"@.len() != "right_hand"@.len());
        assert(x != "right_hand"@);
        assert("rightLeg"@.len() != "rightHand"@.len());
        assert(x != "rightHand"@);
        assert("rightLeg"@.len() != "rhand"@.len());
        assert(x != "rhand"@);
        assert("rightLeg"@[0] != "left_leg"@[0]);
        assert(x != "left_leg"@);
        assert("rightLeg"@.len() != "leftLeg"@.len());
        assert(x != "leftLeg"@);
        assert("rightLeg"@.len() != "lleg"@.len());
        assert(x != "lleg"@);
        assert("rightLeg"@.len() != "right_leg"@.len());
        assert(x != "right_leg"@);
        assert(part_of_key(x) == Some(12int));
    } else if x == "leftFoot"@ {
        assert("leftFoot"@.len() != "head"@.len());
        assert(x != "head"@);
        assert("leftFoot"@.len() != "neck"@.len());
        assert(x != "neck"@);
        assert("leftFoot"@.len() != "back"@.len());
        assert(x != "back"@);
        assert("leftFoot"@.len() != "chest"@.len());
        assert(x != "chest"@);
        assert("leftFoot"@.len() != "abdomen"@.len());
        assert(x != "abdomen"@);
        assert("leftFoot"@.len() != "abs"@.len());
        assert(x != "abs"@);
        assert("leftFoot"@[4] != "left_eye"@[4]);
        assert(x != "left_eye"@);
        assert("leftFoot"@.len() != "leftEye"@.len());
        assert(x != "leftEye"@);
        assert("leftFoot"@.len() != "leye"@.len());
        assert(x != "leye"@);
        assert("leftFoot"@.len() != "right_eye"@.len());
        assert(x != "right_eye"@);
        assert("leftFoot"@[0] != "rightEye"@[0]);
        assert(x != "rightEye"@);
        assert("leftFoot"@.len() != "reye"@.len());
        assert(x != "reye"@);
        assert("leftFoot"@[4] != "left_arm"@[4]);
        assert(x != "left_arm"@);
        assert("leftFoot"@.len() != "leftArm"@.len());
        assert(x != "leftArm"@);
        assert("leftFoot"@.len() != "larm"@.len());
        assert(x != "larm"@);
        assert("leftFoot"@.len() != "right_arm"@.len());
        assert(x != "right_arm"@);
        assert("leftFoot"@[0] != "rightArm"@[0]);
        assert(x != "rightArm"@);
        assert("leftFoot"@.len() != "rarm"@.len());
        assert(x != "rarm"@);
        assert("leftFoot"@.len() != "left_hand"@.len());
        assert(x != "left_hand"@);
        assert("leftFoot"@[4] != "leftHand"@[4]);
        assert(x != "leftHand"@);
        assert("leftFoot"@.len() != "lhand"@.len());
        assert(x != "lhand"@);
        assert("leftFoot"@.len() != "right_hand"@.len());
        assert(x != "right_hand"@);
        assert("leftFoot"@.len() != "rightHand"@.len());
        assert(x != "rightHand"@);
        assert("leftFoot"@.len() != "rhand"@.len());
        assert(x != "rhand"@);
        assert("leftFoot"@[4] != "left_leg"@[4]);
        assert(x != "left_leg"@);
        assert("leftFoot"@.len() != "leftLeg"@.len());
        assert(x != "leftLeg"@);
        assert("leftFoot"@.len() != "lleg"@.len());
        assert(x != "lleg"@);
        assert("leftFoot"@.len() != "right_leg"@.len());
        assert(x != "right_leg"@);
        assert("leftFoot"@[0] != "rightLeg"@[0]);
        assert(x != "rightLeg"@);
        assert("leftFoot"@.len() != "rleg"@.len());
        assert(x != "rleg"@);
        assert("leftFoot"@.len() != "left_foot"@.len());
        assert(x != "left_foot"@);
        assert(part_of_key(x) == Some(13int));
    } else if x == "rightFoot"@ {
        assert("rightFoot"@.len() != "head"@.len());
        assert(x != "head"@);
        assert("rightFoot"@.len() != "neck"@.len());
        assert(x != "neck"@);
        assert("rightFoot"@.len() != "back"@.len());
        assert(x != "back"@);
        assert("rightFoot"@.len() != "chest"@.len());
        assert(x != "chest"@);
        assert("rightFoot"@.len() != "abdomen"@.len());
        assert(x != "abdomen"@);
        assert("rightFoot"@.len() != "abs"@.len());
        assert(x != "abs"@);
        assert("rightFoot"@.len() != "left_eye"@.len());
        assert(x != "left_eye"@);
        assert("rightFoot"@.len() != "leftEye"@.len());
        assert(x != "leftEye"@);
        assert("rightFoot"@.len() != "leye"@.len());
        assert(x != "leye"@);
        assert("rightFoot"@[5] != "right_eye"@[5]);
        assert(x != "right_eye"@);
        assert("rightFoot"@.len() != "rightEye"@.len());
        assert(x != "rightEye"@);
        assert("rightFoot"@.len() != "reye"@.len());
        assert(x != "reye"@);
        assert("rightFoot"@.len() != "left_arm"@.len());
        assert(x != "left_arm"@);
        assert("rightFoot"@.len() != "leftArm"@.len());
        assert(x != "leftArm"@);
        assert("rightFoot"@.len() != "larm"@.len());
        assert(x != "larm"@);
        assert("rightFoot"@[5] != "right_arm"@[5]);
        assert(x != "right_arm"@);
        assert("rightFoot"@.len() != "rightArm"@.len());
        assert(x != "rightArm"@);
        assert("rightFoot"@.len() != "rarm"@.len());
        assert(x != "rarm"@);
        assert("rightFoot"@[0] != "left_hand"@[0]);
        assert(x != "left_hand"@);
        assert("rightFoot"@.len() != "leftHand"@.len());
        assert(x != "leftHand"@);
        assert("rightFoot"@.len() != "lhand"@.len());
        assert(x != "lhand"@);
        assert("rightFoot"@.len() != "right_hand"@.len());
        assert(x != "right_hand"@);
        assert("rightFoot"@[5] != "rightHand"@[5]);
        assert(x != "rightHand"@);
        assert("rightFoot"@.len() != "rhand"@.len());
        assert(x != "rhand"@);
        assert("rightFoot"@.len() != "left_leg"@.len());
        assert(x != "left_leg"@);
        assert("rightFoot"@.len() != "leftLeg"@.len());
        assert(x != "leftLeg"@);
        assert("rightFoot"@.len() != "lleg"@.len());
        assert(x != "lleg"@);
        assert("rightFoot"@[5] != "right_leg"@[5]);
        assert(x != "right_leg"@);
        assert("rightFoot"@.len() != "rightLeg"@.len());
        assert(x != "rightLeg"@);
        assert("rightFoot"@.len() != "rleg"@.len());
        assert(x != "rleg"@);
        assert("rightFoot"@[0] != "left_foot"@[0]);
        assert(x != "left_foot"@);
        assert("rightFoot"@.len() != "leftFoot"@.len());
        assert(x != "leftFoot"@);
        assert("rightFoot"@.len() != "lfoot"@.len());
        assert(x != "lfoot"@);
        assert("rightFoot"@.len() != "right_foot"@.len());
        assert(x != "right_foot"@);
        assert(part_of_key(x) == Some(14int));
    } else if x == "nsys"@ {
        assert("nsys"@[0] != "head"@[0]);
        assert(x != "head"@);
        assert("nsys"@[1] != "neck"@[1]);
        assert(x != "neck"@);
        assert("nsys"@[0] != "back"@[0]);
        assert(x != "back"@);
        assert("nsys"@.len() != "chest"@.len());
        assert(x != "chest"@);
        assert("nsys"@.len() != "abdomen"@.len());
        assert(x != "abdomen"@);
        assert("nsys"@.len() != "abs"@.len());
        assert(x != "abs"@);
        assert("nsys"@.len() != "left_eye"@.len());
        assert(x != "left_eye"@);
        assert("nsys"@.len() != "leftEye"@.len());
        assert(x != "leftEye"@);
        assert("nsys"@[0] != "leye"@[0]);
        assert(x != "leye"@);
        assert("nsys"@.len() != "right_eye"@.len());
        assert(x != "right_eye"@);
        assert("nsys"@.len() != "rightEye"@.len());
        assert(x != "rightEye"@);
        assert("nsys"@[0] != "reye"@[0]);
        assert(x != "reye"@);
        assert("nsys"@.len() != "left_arm"@.len());
        assert(x != "left_arm"@);
        assert("nsys"@.len() != "leftArm"@.len());
        assert(x != "leftArm"@);
        assert("nsys"@[0] != "larm"@[0]);
        assert(x != "larm"@);
        assert("nsys"@.len() != "right_arm"@.len());
        assert(x != "right_arm"@);
        assert("nsys"@.len() != "rightArm"@.len());
        assert(x != "rightArm"@);
        assert("nsys"@[0] != "rarm"@[0]);
        assert(x != "rarm"@);
        assert("nsys"@.len() != "left_hand"@.len());
        assert(x != "left_hand"@);
        assert("nsys"@.len() != "leftHand"@.len());
        assert(x != "leftHand"@);
        assert("nsys"@.len() != "lhand"@.len());
        assert(x != "lhand"@);
        assert("nsys"@.len() != "right_hand"@.len());
        assert(x != "right_hand"@);
        assert("nsys"@.len() != "rightHand"@.len());
        assert(x != "rightHand"@);
        assert("nsys"@.len() != "rhand"@.len());
        assert(x != "rhand"@);
        assert("nsys"@.len() != "left_leg"@.len());
        assert(x != "left_leg"@);
        assert("nsys"@.len() != "leftLeg"@.len());
        assert(x != "leftLeg"@);
        assert("nsys"@[0] != "lleg"@[0]);
        assert(x != "lleg"@);
        assert("nsys"@.len() != "right_leg"@.len());
        assert(x != "right_leg"@);
        assert("nsys"@.len() != "rightLeg"@.len());
        assert(x != "rightLeg"@);
        assert("nsys"@[0] != "rleg"@[0]);
        assert(x != "rleg"@);
        assert("nsys"@.len() != "left_foot"@.len());
        assert(x != "left_foot"@);
        assert("nsys"@.len() != "leftFoot"@.len());
        assert(x != "leftFoot"@);
        assert("nsys"@.len() != "lfoot"@.len());
        assert(x != "lfoot"@);
        assert("nsys"@.len() != "right_foot"@.len());
        assert(x != "right_foot"@);
        assert("nsys"@.len() != "rightFoot"@.len());
        assert(x != "rightFoot"@);
        assert("nsys"@.len() != "rfoot"@.len());
        assert(x != "rfoot"@);
        assert(part_of_key(x) == Some(15int));
    }
}

/// What `set` stores, `get` gives back: after `set(x, v)` succeeds, `get`
/// on `x` itself or on any key naming the same part gives `Some(v)`; keys
/// of other parts give what they gave before. `set` succeeds exactly on the
/// XML ids of body parts, and leaves the record as it was otherwise.
pub proof fn lemma_set_then_get(b: BodyInjuries, x: Seq<char>, v: u8, k: Seq<char>)
    ensures
        b.set_spec(x, v).1 <==> part_of_id(x) is Some,
        !b.set_spec(x, v).1 ==> b.set_spec(x, v).0 == b,
        b.set_spec(x, v).1 ==> b.set_spec(x, v).0.get_spec(x) == Some(v),
        b.set_spec(x, v).1 && part_of_key(k) == part_of_id(x) ==> b.set_spec(x, v).0.get_spec(k) == Some(v),
        b.set_spec(x, v).1 && part_of_key(k) != part_of_id(x) ==> b.set_spec(x, v).0.get_spec(k) == b.get_spec(k),
{
    reveal_strlit("head");
    reveal_strlit("neck");
    reveal_strlit("back");
    reveal_strlit("chest");
    reveal_strlit("abdomen");
    reveal_strlit("abs");
    reveal_strlit("left_eye");
    reveal_strlit("leftEye");
    reveal_strlit("leye");
    reveal_strlit("right_eye");
    reveal_strlit("rightEye");
    reveal_strlit("reye");
    reveal_strlit("left_arm");
    reveal_strlit("leftArm");
    reveal_strlit("larm");
    reveal_strlit("right_arm");
    reveal_strlit("rightArm");
    reveal_strlit("rarm");
    reveal_strlit("left_hand");
    reveal_strlit("leftHand");
    reveal_strlit("lhand");
    reveal_strlit("right_hand");
    reveal_strlit("rightHand");
    reveal_strlit("rhand");
    reveal_strlit("left_leg");
    reveal_strlit("leftLeg");
    reveal_strlit("lleg");
    reveal_strlit("right_leg");
    reveal_strlit("rightLeg");
    reveal_strlit("rleg");
    reveal_strlit("left_foot");
    reveal_strlit("leftFoot");
    reveal_strlit("lfoot");
    reveal_strlit("right_foot");
    reveal_strlit("rightFoot");
    reveal_strlit("rfoot");
    reveal_strlit("nsys");
    reveal_strlit("nerves");
    if part_of_id(x) is Some {
        lemma_id_is_key(x);
    }
}

} // verus!

verus! {

#[derive(Debug, Clone)]
pub struct GameState {
    pub health: u32,
    pub max_health: u32,
    pub mana: u32,
    pub max_mana: u32,
    pub spirit: u32,
    pub max_spirit: u32,
    pub stamina: u32,
    pub max_stamina: u32,
    pub concentration: u32,
    pub max_concentration: u32,
    /// Unix time (seconds) at which the roundtime ends, while it lies ahead.
    pub roundtime_end: Option<i64>,
    /// Unix time (seconds) at which the cast roundtime ends, while it lies ahead.
    pub cast_roundtime_end: Option<i64>,
    pub room_name: String,
    pub room_description: String,
    pub room_exits: Vec<String>,
    pub room_id: Option<u32>,
    pub prepared_spell: Option<String>,
    pub active_spells: Vec<ActiveSpell>,
    pub stance: Stance,
    pub mind: MindState,
    pub encumbrance: EncumbranceState,
    // Status indicators from <indicator id="IconXXX" visible="y/n"/>
    pub bleeding: bool,
    pub stunned: bool,
    pub dead: bool,
    pub sleeping: bool,
    pub prone: bool,
    pub sitting: bool,
    pub kneeling: bool,
    pub standing: bool,
    pub poisoned: bool,
    pub diseased: bool,
    pub hidden: bool,
    pub invisible: bool,
    pub webbed: bool,
    pub joined: bool,
    pub calmed: bool,
    pub cutthroat: bool,
    pub silenced: bool,
    pub bound: bool,
    pub right_hand: Option<String>,
    pub left_hand: Option<String>,
    pub wounds: BodyInjuries,
    pub scars: BodyInjuries,
    pub server_time: i64,
    pub prompt: String,
    pub level: u32,
    pub experience: u64,
    pub game: Game,
    pub name: String,
    pub room_count: u32,
}

/// The end of a roundtime reported as ending at `epoch`, given the clock
/// reading `now` (none when the clock could not be read): the end while it
/// lies ahead, none once it has passed.
pub open spec fn deadline(epoch: i64, now: Option<i64>) -> Option<i64> {
    match now {
        Some(n) => if epoch > n {
            Some(epoch)
        } else {
            None
        },
        None => None,
    }
}

/// Reads the system clock as whole seconds since the Unix epoch
/// (`SystemTime::now().duration_since(UNIX_EPOCH)`), `None` for a clock set
/// before the epoch. Nothing is stated of the reading.
#[verifier::external_body]
fn unix_now() -> Option<u64> {
    match std::time::SystemTime::now().duration_since(std::time::UNIX_EPOCH) {
        Ok(d) => Some(d.as_secs()),
        Err(_) => None,
    }
}

/// The clock as a signed number of seconds.
pub fn now_epoch() -> Option<i64> {
    match unix_now() {
        Some(s) => Some(s as i64),
        None => None,
    }
}

pub fn epoch_deadline(epoch: i64, now: Option<i64>) -> (r: Option<i64>)
    ensures
        r == deadline(epoch, now),
{
    match now {
        Some(n) => if epoch > n {
            Some(epoch)
        } else {
            None
        },
        None => None,
    }
}

/// The end of a roundtime ending at `epoch`, measured against the clock now:
/// `None` when it has already passed.
pub fn epoch_to_instant(epoch: i64) -> (r: Option<i64>)
    ensures
        r is Some ==> r == Some(epoch),
{
    epoch_deadline(epoch, now_epoch())
}

/// The value of an optional maximum, or `cur` when it is absent.
pub open spec fn or_keep(m: Option<u32>, cur: u32) -> u32 {
    match m {
        Some(v) => v,
        None => cur,
    }
}

/// Whether applying `e` changes the game state at all.
pub open spec fn handled(e: XmlEvent) -> bool {
    ||| e is Health
    ||| e is Mana
    ||| e is Spirit
    ||| e is Stamina
    ||| e is Concentration
    ||| e is RoundTime
    ||| e is CastTime
    ||| e is Prompt
    ||| e is RoomName
    ||| e is RoomDescription
    ||| e is RoomExits
    ||| e is RoomId
    ||| e is PreparedSpell
    ||| e is Level
    ||| e is Experience
    ||| e is RightHand
    ||| e is LeftHand
    ||| e is Mode
    ||| e is SpellCleared
    ||| e is Indicator
    ||| e is ActiveSpell
}

/// The state `s` with the health (and its maximum, when given) replaced.
#[verifier::opaque]
pub open spec fn with_health(s: GameState, value: u32, max: Option<u32>) -> GameState {
    GameState { health: value, max_health: or_keep(max, s.max_health), ..s }
}

/// The state `s` with the mana (and its maximum, when given) replaced.
#[verifier::opaque]
pub open spec fn with_mana(s: GameState, value: u32, max: Option<u32>) -> GameState {
    GameState { mana: value, max_mana: or_keep(max, s.max_mana), ..s }
}

/// The state `s` with the spirit (and its maximum, when given) replaced.
#[verifier::opaque]
pub open spec fn with_spirit(s: GameState, value: u32, max: Option<u32>) -> GameState {
    GameState { spirit: value, max_spirit: or_keep(max, s.max_spirit), ..s }
}

/// The state `s` with the stamina (and its maximum, when given) replaced.
#[verifier::opaque]
pub open spec fn with_stamina(s: GameState, value: u32, max: Option<u32>) -> GameState {
    GameState { stamina: value, max_stamina: or_keep(max, s.max_stamina), ..s }
}

/// The state `s` with the concentration (and its maximum, when given) replaced.
#[verifier::opaque]
pub open spec fn with_concentration(s: GameState, value: u32, max: Option<u32>) -> GameState {
    GameState { concentration: value, max_concentration: or_keep(max, s.max_concentration), ..s }
}

/// The state `s` with the end of the roundtime replaced.
#[verifier::opaque]
pub open spec fn with_roundtime(s: GameState, end: Option<i64>) -> GameState {
    GameState { roundtime_end: end, ..s }
}

/// The state `s` with the end of the cast roundtime replaced.
#[verifier::opaque]
pub open spec fn with_cast_roundtime(s: GameState, end: Option<i64>) -> GameState {
    GameState { cast_roundtime_end: end, ..s }
}

/// The state `s` with the server time and prompt replaced.
#[verifier::opaque]
pub open spec fn with_prompt(s: GameState, time: i64, text: String) -> GameState {
    GameState { server_time: time, prompt: text, ..s }
}

/// The state `s` with the room name replaced.
#[verifier::opaque]
pub open spec fn with_room_name(s: GameState, name: String) -> GameState {
    GameState { room_name: name, ..s }
}

/// The state `s` with the room description replaced.
#[verifier::opaque]
pub open spec fn with_room_description(s: GameState, text: String) -> GameState {
    GameState { room_description: text, ..s }
}

/// The state `s` with the room exits replaced.
#[verifier::opaque]
pub open spec fn with_room_exits(s: GameState, exits: Vec<String>) -> GameState {
    GameState { room_exits: exits, ..s }
}

/// The state `s` with the room id, counting one more room replaced.
#[verifier::opaque]
pub open spec fn with_room_id(s: GameState, id: u32) -> GameState {
    GameState { room_id: Some(id), room_count: vstd::wrapping::u32_specs::wrapping_add(s.room_count, 1), ..s }
}

/// The state `s` with the prepared spell replaced.
#[verifier::opaque]
pub open spec fn with_prepared_spell(s: GameState, name: Option<String>) -> GameState {
    GameState { prepared_spell: name, ..s }
}

/// The state `s` with the level replaced.
#[verifier::opaque]
pub open spec fn with_level(s: GameState, value: u32) -> GameState {
    GameState { level: value, ..s }
}

/// The state `s` with the experience replaced.
#[verifier::opaque]
pub open spec fn with_experience(s: GameState, value: u64) -> GameState {
    GameState { experience: value, ..s }
}

/// The state `s` with the right hand replaced.
#[verifier::opaque]
pub open spec fn with_right_hand(s: GameState, item: Option<String>) -> GameState {
    GameState { right_hand: item, ..s }
}

/// The state `s` with the left hand replaced.
#[verifier::opaque]
pub open spec fn with_left_hand(s: GameState, item: Option<String>) -> GameState {
    GameState { left_hand: item, ..s }
}

/// The state `s` with the room id, when the mode gives one replaced.
#[verifier::opaque]
pub open spec fn with_mode_room(s: GameState, room_id: Option<u32>) -> GameState {
    GameState { room_id: match room_id {
            Some(id) => Some(id),
            None => s.room_id,
        }, ..s }
}

/// The state after a status indicator `name` turned `visible` on or off.
#[verifier::opaque]
pub open spec fn indicator_applied(s: GameState, name: Seq<char>, v: bool) -> GameState {
    if name == "IconBLEEDING"@ {
        GameState { bleeding: v, ..s }
    } else if name == "IconSTUNNED"@ {
        GameState { stunned: v, ..s }
    } else if name == "IconDEAD"@ {
        GameState { dead: v, ..s }
    } else if name == "IconSLEEPING"@ {
        GameState { sleeping: v, ..s }
    } else if name == "IconPRONE"@ {
        GameState { prone: v, ..s }
    } else if name == "IconSITTING"@ {
        GameState { sitting: v, ..s }
    } else if name == "IconKNEELING"@ {
        GameState { kneeling: v, ..s }
    } else if name == "IconSTANDING"@ {
        GameState { standing: v, ..s }
    } else if name == "IconPOISONED"@ {
        GameState { poisoned: v, ..s }
    } else if name == "IconDISEASED"@ {
        GameState { diseased: v, ..s }
    } else if name == "IconHIDDEN"@ {
        GameState { hidden: v, ..s }
    } else if name == "IconINVISIBLE"@ {
        GameState { invisible: v, ..s }
    } else if name == "IconWEBBED"@ {
        GameState { webbed: v, ..s }
    } else if name == "IconJOINED"@ {
        GameState { joined: v, ..s }
    } else {
        s
    }
}

/// The state `t` after applying `e` to `s` with the clock reading `now`.
pub open spec fn applied(s: GameState, t: GameState, e: XmlEvent, now: Option<i64>) -> bool {
    &&& (e is Health) ==> t == with_health(s, e->Health_value, e->Health_max)
    &&& (e is Mana) ==> t == with_mana(s, e->Mana_value, e->Mana_max)
    &&& (e is Spirit) ==> t == with_spirit(s, e->Spirit_value, e->Spirit_max)
    &&& (e is Stamina) ==> t == with_stamina(s, e->Stamina_value, e->Stamina_max)
    &&& (e is Concentration) ==> t == with_concentration(s, e->Concentration_value, e->Concentration_max)
    &&& (e is RoundTime) ==> t == with_roundtime(s, deadline(e->RoundTime_end_epoch, now))
    &&& (e is CastTime) ==> t == with_cast_roundtime(s, deadline(e->CastTime_end_epoch, now))
    &&& (e is Prompt) ==> t == with_prompt(s, e->Prompt_time, e->Prompt_text)
    &&& (e is RoomName) ==> t == with_room_name(s, e->RoomName_name)
    &&& (e is RoomDescription) ==> t == with_room_description(s, e->RoomDescription_text)
    &&& (e is RoomExits) ==> t == with_room_exits(s, e->RoomExits_exits)
    &&& (e is RoomId) ==> t == with_room_id(s, e->RoomId_id)
    &&& (e is PreparedSpell) ==> t == with_prepared_spell(s, Some(e->PreparedSpell_name))
    &&& (e is Level) ==> t == with_level(s, e->Level_value)
    &&& (e is Experience) ==> t == with_experience(s, e->Experience_value)
    &&& (e is RightHand) ==> t == with_right_hand(s, e->RightHand_item)
    &&& (e is LeftHand) ==> t == with_left_hand(s, e->LeftHand_item)
    &&& (e is Mode) ==> t == with_mode_room(s, e->Mode_room_id)
    &&& (e is SpellCleared) ==> t == with_prepared_spell(s, None)
    &&& (e is Indicator) ==> t == indicator_applied(s, e->Indicator_name@, e->Indicator_visible)
    &&& (e is ActiveSpell) ==> t.active_spells@ == s.active_spells@.push(
        ActiveSpell { name: e->ActiveSpell_name, duration_secs: e->ActiveSpell_duration },
    ) && t == (GameState { active_spells: t.active_spells, ..s })
    &&& !handled(e) ==> t == s
}

impl GameState {
    #[verifier::rlimit(100)]
    #[verifier::spinoff_prover]
    fn set_indicator(&mut self, name: &str, visible: bool)
        ensures
            *final(self) == indicator_applied(*old(self), name@, visible),
    {
        reveal(indicator_applied);
        let n = text::chars_of(name);
        let i0 = text::eq_lit(&n, "IconBLEEDING");
        let i1 = text::eq_lit(&n, "IconSTUNNED");
        let i2 = text::eq_lit(&n, "IconDEAD");
        let i3 = text::eq_lit(&n, "IconSLEEPING");
        let i4 = text::eq_lit(&n, "IconPRONE");
        let i5 = text::eq_lit(&n, "IconSITTING");
        let i6 = text::eq_lit(&n, "IconKNEELING");
        let i7 = text::eq_lit(&n, "IconSTANDING");
        let i8 = text::eq_lit(&n, "IconPOISONED");
        let i9 = text::eq_lit(&n, "IconDISEASED");
        let i10 = text::eq_lit(&n, "IconHIDDEN");
        let i11 = text::eq_lit(&n, "IconINVISIBLE");
        let i12 = text::eq_lit(&n, "IconWEBBED");
        let i13 = text::eq_lit(&n, "IconJOINED");
        if i0 {
            self.bleeding = visible;
        } else if i1 {
            self.stunned = visible;
        } else if i2 {
            self.dead = visible;
        } else if i3 {
            self.sleeping = visible;
        } else if i4 {
            self.prone = visible;
        } else if i5 {
            self.sitting = visible;
        } else if i6 {
            self.kneeling = visible;
        } else if i7 {
            self.standing = visible;
        } else if i8 {
            self.poisoned = visible;
        } else if i9 {
            self.diseased = visible;
        } else if i10 {
            self.hidden = visible;
        } else if i11 {
            self.invisible = visible;
        } else if i12 {
            self.webbed = visible;
        } else if i13 {
            self.joined = visible;
        }
    }

    fn set_health(&mut self, value: u32, max: Option<u32>)
        ensures
            *final(self) == with_health(*old(self), value, max),
    {
        reveal(with_health);
        let m = match max {
            Some(m) => m,
            None => self.max_health,
        };
        self.health = value;
        self.max_health = m;
    }

    fn set_mana(&mut self, value: u32, max: Option<u32>)
        ensures
            *final(self) == with_mana(*old(self), value, max),
    {
        reveal(with_mana);
        let m = match max {
            Some(m) => m,
            None => self.max_mana,
        };
        self.mana = value;
        self.max_mana = m;
    }

    fn set_spirit(&mut self, value: u32, max: Option<u32>)
        ensures
            *final(self) == with_spirit(*old(self), value, max),
    {
        reveal(with_spirit);
        let m = match max {
            Some(m) => m,
            None => self.max_spirit,
        };
        self.spirit = value;
        self.max_spirit = m;
    }

    fn set_stamina(&mut self, value: u32, max: Option<u32>)
        ensures
            *final(self) == with_stamina(*old(self), value, max),
    {
        reveal(with_stamina);
        let m = match max {
            Some(m) => m,
            None => self.max_stamina,
        };
        self.stamina = value;
        self.max_stamina = m;
    }

    fn set_concentration(&mut self, value: u32, max: Option<u32>)
        ensures
            *final(self) == with_concentration(*old(self), value, max),
    {
        reveal(with_concentration);
        let m = match max {
            Some(m) => m,
            None => self.max_concentration,
        };
        self.concentration = value;
        self.max_concentration = m;
    }

    fn set_roundtime(&mut self, end: Option<i64>)
        ensures
            *final(self) == with_roundtime(*old(self), end),
    {
        reveal(with_roundtime);
        self.roundtime_end = end;
    }

    fn set_cast_roundtime(&mut self, end: Option<i64>)
        ensures
            *final(self) == with_cast_roundtime(*old(self), end),
    {
        reveal(with_cast_roundtime);
        self.cast_roundtime_end = end;
    }

    fn set_prompt(&mut self, time: i64, text: String)
        ensures
            *final(self) == with_prompt(*old(self), time, text),
    {
        reveal(with_prompt);
        self.server_time = time;
        self.prompt = text;
    }

    fn set_room_name(&mut self, name: String)
        ensures
            *final(self) == with_room_name(*old(self), name),
    {
        reveal(with_room_name);
        self.room_name = name;
    }

    fn set_room_description(&mut self, text: String)
        ensures
            *final(self) == with_room_description(*old(self), text),
    {
        reveal(with_room_description);
        self.room_description = text;
    }

    fn set_room_exits(&mut self, exits: Vec<String>)
        ensures
            *final(self) == with_room_exits(*old(self), exits),
    {
        reveal(with_room_exits);
        self.room_exits = exits;
    }

    fn set_room_id(&mut self, id: u32)
        ensures
            *final(self) == with_room_id(*old(self), id),
    {
        reveal(with_room_id);
        self.room_id = Some(id);
        self.room_count = self.room_count.wrapping_add(1);
    }

    fn set_prepared_spell(&mut self, name: Option<String>)
        ensures
            *final(self) == with_prepared_spell(*old(self), name),
    {
        reveal(with_prepared_spell);
        self.prepared_spell = name;
    }

    fn set_level(&mut self, value: u32)
        ensures
            *final(self) == with_level(*old(self), value),
    {
        reveal(with_level);
        self.level = value;
    }

    fn set_experience(&mut self, value: u64)
        ensures
            *final(self) == with_experience(*old(self), value),
    {
        reveal(with_experience);
        self.experience = value;
    }

    fn set_right_hand(&mut self, item: Option<String>)
        ensures
            *final(self) == with_right_hand(*old(self), item),
    {
        reveal(with_right_hand);
        self.right_hand = item;
    }

    fn set_left_hand(&mut self, item: Option<String>)
        ensures
            *final(self) == with_left_hand(*old(self), item),
    {
        reveal(with_left_hand);
        self.left_hand = item;
    }

    fn set_mode_room(&mut self, room_id: Option<u32>)
        ensures
            *final(self) == with_mode_room(*old(self), room_id),
    {
        reveal(with_mode_room);
        let r = match room_id {
            Some(id) => Some(id),
            None => self.room_id,
        };
        self.room_id = r;
    }

    fn push_active_spell(&mut self, name: String, duration: Option<u32>)
        ensures
            final(self).active_spells@ == old(self).active_spells@.push(
                ActiveSpell { name, duration_secs: duration },
            ),
            *final(self) == (GameState { active_spells: final(self).active_spells, ..*old(self) }),
    {
        self.active_spells.push(ActiveSpell { name, duration_secs: duration });
    }

    /// Applies `event` with the clock reading `now`: vitals set the current
    /// value (and the maximum when given), roundtimes record their end while
    /// it lies ahead, room, spell, hand, level and experience events replace
    /// what they report, a room id also counts a room, indicators set their
    /// status flag, active spells are appended; other events change nothing.
    #[verifier::rlimit(100)]
    #[verifier::spinoff_prover]
    pub fn apply_at(&mut self, event: XmlEvent, now: Option<i64>)
        ensures
            applied(*old(self), *final(self), event, now),
    {
        match event {
            XmlEvent::Health { value, max } => self.set_health(value, max),
            XmlEvent::Mana { value, max } => self.set_mana(value, max),
            XmlEvent::Spirit { value, max } => self.set_spirit(value, max),
            XmlEvent::Stamina { value, max } => self.set_stamina(value, max),
            XmlEvent::Concentration { value, max } => self.set_concentration(value, max),
            XmlEvent::RoundTime { end_epoch } => self.set_roundtime(epoch_deadline(end_epoch, now)),
            XmlEvent::CastTime { end_epoch } => self.set_cast_roundtime(epoch_deadline(end_epoch, now)),
            XmlEvent::Prompt { time, text } => self.set_prompt(time, text),
            XmlEvent::RoomName { name } => self.set_room_name(name),
            XmlEvent::RoomDescription { text } => self.set_room_description(text),
            XmlEvent::RoomExits { exits, raw: _ } => self.set_room_exits(exits),
            XmlEvent::RoomId { id } => self.set_room_id(id),
            XmlEvent::PreparedSpell { name } => self.set_prepared_spell(Some(name)),
            XmlEvent::Level { value } => self.set_level(value),
            XmlEvent::Experience { value } => self.set_experience(value),
            XmlEvent::RightHand { item } => self.set_right_hand(item),
            XmlEvent::LeftHand { item } => self.set_left_hand(item),
            XmlEvent::Mode { id: _, room_id } => self.set_mode_room(room_id),
            XmlEvent::SpellCleared => self.set_prepared_spell(None),
            XmlEvent::Indicator { name, visible } => self.set_indicator(name.as_str(), visible),
            XmlEvent::ActiveSpell { name, duration } => self.push_active_spell(name, duration),
            _ => {},
        }
    }

    /// Applies `event`, reading the clock for roundtime events: exactly as
    /// [`GameState::apply_at`] with the clock reading taken now.
    pub fn apply(&mut self, event: XmlEvent)
        ensures
            exists|now: Option<i64>| applied(*old(self), *final(self), event, now),
    {
        let now = now_epoch();
        self.apply_at(event, now);
    }
}

} // verus!

verus! {

impl Default for Stance {
    fn default() -> (r: Self)
        ensures
            r == Stance::Unset,
    {
        Stance::Unset
    }
}

impl Default for MindState {
    fn default() -> (r: Self)
        ensures
            r == MindState::Clear,
    {
        MindState::Clear
    }
}

impl Default for EncumbranceState {
    fn default() -> (r: Self)
        ensures
            r == EncumbranceState::Unburdened,
    {
        EncumbranceState::Unburdened
    }
}

impl Default for BodyInjuries {
    fn default() -> (r: Self)
        ensures
            r == BodyInjuries::none(),
    {
        BodyInjuries::new()
    }
}

impl Default for ActiveSpell {
    fn default() -> (r: Self)
        ensures
            r.name@.len() == 0,
            r.duration_secs is None,
    {
        ActiveSpell { name: String::new(), duration_secs: None }
    }
}

/// The state before anything was heard from the game: every number zero,
/// every text empty, nothing known, no indicator set, GemStone.
pub open spec fn is_initial(s: GameState) -> bool {
    &&& s.health == 0 && s.max_health == 0 && s.mana == 0 && s.max_mana == 0
    &&& s.spirit == 0 && s.max_spirit == 0 && s.stamina == 0 && s.max_stamina == 0
    &&& s.concentration == 0 && s.max_concentration == 0
    &&& s.roundtime_end is None && s.cast_roundtime_end is None
    &&& s.room_name@.len() == 0 && s.room_description@.len() == 0 && s.room_exits@.len() == 0
    &&& s.room_id is None && s.prepared_spell is None && s.active_spells@.len() == 0
    &&& s.stance == Stance::Unset && s.mind == MindState::Clear
    &&& s.encumbrance == EncumbranceState::Unburdened
    &&& !s.bleeding && !s.stunned && !s.dead && !s.sleeping && !s.prone && !s.sitting
    &&& !s.kneeling && !s.standing && !s.poisoned && !s.diseased && !s.hidden && !s.invisible
    &&& !s.webbed && !s.joined && !s.calmed && !s.cutthroat && !s.silenced && !s.bound
    &&& s.right_hand is None && s.left_hand is None
    &&& s.wounds == BodyInjuries::none() && s.scars == BodyInjuries::none()
    &&& s.server_time == 0 && s.prompt@.len() == 0 && s.level == 0 && s.experience == 0
    &&& s.game == Game::GemStone && s.name@.len() == 0 && s.room_count == 0
}

impl Default for GameState {
    fn default() -> (r: Self)
        ensures
            is_initial(r),
    {
        GameState {
            health: 0,
            max_health: 0,
            mana: 0,
            max_mana: 0,
            spirit: 0,
            max_spirit: 0,
            stamina: 0,
            max_stamina: 0,
            concentration: 0,
            max_concentration: 0,
            roundtime_end: None,
            cast_roundtime_end: None,
            room_name: String::new(),
            room_description: String::new(),
            room_exits: Vec::new(),
            room_id: None,
            prepared_spell: None,
            active_spells: Vec::new(),
            stance: Stance::Unset,
            mind: MindState::Clear,
            encumbrance: EncumbranceState::Unburdened,
            bleeding: false,
            stunned: false,
            dead: false,
            sleeping: false,
            prone: false,
            sitting: false,
            kneeling: false,
            standing: false,
            poisoned: false,
            diseased: false,
            hidden: false,
            invisible: false,
            webbed: false,
            joined: false,
            calmed: false,
            cutthroat: false,
            silenced: false,
            bound: false,
            right_hand: None,
            left_hand: None,
            wounds: BodyInjuries::new(),
            scars: BodyInjuries::new(),
            server_time: 0,
            prompt: String::new(),
            level: 0,
            experience: 0,
            game: Game::GemStone,
            name: String::new(),
            room_count: 0,
        }
    }
}

} // verus!
