//! The rooms of the game's map, as read from the map file, and looking
//! them up by number, title, tag and unique id. Travel costs between rooms
//! are fractional seconds and routes are searched over them by the caller;
//! what is kept here is everything else about a room.
use vstd::prelude::*;
use crate::text;

verus! {

/// A room's unique id as the map file writes it: a number, a text, a list
/// of numbers, or something else. A number is kept as the unsigned value it
/// reads as, when it reads as one.
#[derive(Debug, Clone, PartialEq, Eq)]
pub enum RoomUid {
    Missing,
    Number(Option<u64>),
    Text(String),
    List(Vec<Option<u64>>),
    Other,
}

/// One room of the map (its travel costs aside).
#[derive(Debug, Clone)]
pub struct MapRoom {
    pub id: u32,
    pub title: String,
    pub description: String,
    /// The command that leads to each neighbouring room, by its number.
    pub wayto: Vec<(String, String)>,
    pub paths: Vec<String>,
    pub tags: Vec<String>,
    pub location: Option<String>,
    pub terrain: Option<String>,
    pub uid: RoomUid,
    pub image: Option<String>,
}

/// A room as values.
pub struct RoomV {
    pub id: u32,
    pub title: Seq<char>,
    pub description: Seq<char>,
    pub wayto: Seq<(Seq<char>, Seq<char>)>,
    pub paths: Seq<Seq<char>>,
    pub tags: Seq<Seq<char>>,
    pub location: Option<Seq<char>>,
    pub terrain: Option<Seq<char>>,
    pub uid: UidV,
    pub image: Option<Seq<char>>,
}

pub enum UidV {
    Missing,
    Number(Option<u64>),
    Text(Seq<char>),
    List(Seq<Option<u64>>),
    Other,
}

impl View for MapRoom {
    type V = RoomV;

    open spec fn view(&self) -> RoomV {
        RoomV {
            id: self.id,
            title: self.title@,
            description: self.description@,
            wayto: self.wayto@.map_values(|p: (String, String)| (p.0@, p.1@)),
            paths: tag_views(self.paths@),
            tags: tag_views(self.tags@),
            location: match self.location {
                Some(s) => Some(s@),
                None => None,
            },
            terrain: match self.terrain {
                Some(s) => Some(s@),
                None => None,
            },
            image: match self.image {
                Some(s) => Some(s@),
                None => None,
            },
            uid: match self.uid {
                RoomUid::Missing => UidV::Missing,
                RoomUid::Number(n) => UidV::Number(n),
                RoomUid::Text(s) => UidV::Text(s@),
                RoomUid::List(v) => UidV::List(v@),
                RoomUid::Other => UidV::Other,
            },
        }
    }
}

pub open spec fn tag_views(v: Seq<String>) -> Seq<Seq<char>> {
    v.map_values(|t: String| t@)
}

pub open spec fn rooms_view(v: Seq<MapRoom>) -> Seq<RoomV> {
    v.map_values(|r: MapRoom| r@)
}

/// The rooms of the map file in file order. When two rooms share a number
/// the later one is the room of that number; the earlier is shadowed.
pub struct MapData {
    rooms: Vec<MapRoom>,
}

impl View for MapData {
    type V = Seq<RoomV>;

    closed spec fn view(&self) -> Seq<RoomV> {
        rooms_view(self.rooms@)
    }
}

/// The index of the last room numbered `id` among the first `n`.
pub open spec fn last_with_id(s: Seq<RoomV>, id: u32, n: int) -> Option<int>
    decreases n,
{
    if n <= 0 || n > s.len() {
        None
    } else if s[n - 1].id == id {
        Some(n - 1)
    } else {
        last_with_id(s, id, n - 1)
    }
}

/// The room at `i` is the room of its number: no later room has it.
pub open spec fn live(s: Seq<RoomV>, i: int) -> bool {
    0 <= i < s.len() && last_with_id(s, s[i].id, s.len() as int) == Some(i)
}

/// Whether the title holds `lname` (already lowercased), ignoring case.
pub open spec fn title_matches(r: RoomV, lname: Seq<char>) -> bool {
    text::contains_sub(text::unicode_lowercase(r.title), lname)
}

/// Whether some tag is `ltag` (already lowercased), ignoring case.
pub open spec fn has_tag(r: RoomV, ltag: Seq<char>) -> bool {
    exists|k: int| 0 <= k < r.tags.len() && text::unicode_lowercase(#[trigger] r.tags[k]) == ltag
}

/// What `str::parse::<u32>` makes of `s`.
pub open spec fn u32_of(s: Seq<char>) -> Option<u32> {
    match text::parse_unsigned(s, 0xffff_ffff) {
        Some(v) => Some(v as u32),
        None => None,
    }
}

/// Whether the room's unique id is `uid`.
pub open spec fn uid_matches(u: UidV, uid: u32) -> bool {
    match u {
        UidV::Number(n) => n == Some(uid as u64),
        UidV::List(v) => exists|k: int| 0 <= k < v.len() && #[trigger] v[k] == Some(uid as u64),
        UidV::Text(s) => u32_of(s) == Some(uid),
        _ => false,
    }
}

proof fn lemma_last_with_id(s: Seq<RoomV>, id: u32, n: int)
    requires
        0 <= n <= s.len(),
    ensures
        last_with_id(s, id, n) matches Some(i) ==> 0 <= i < n && s[i].id == id && forall|k: int| i < k < n ==> s[k].id != id,
        last_with_id(s, id, n) is None ==> forall|k: int| 0 <= k < n ==> s[k].id != id,
    decreases n,
{
    if n > 0 && s[n - 1].id != id {
        lemma_last_with_id(s, id, n - 1);
    }
}

/// Some room is numbered `id`.
pub open spec fn has_id(s: Seq<RoomV>, id: u32) -> bool {
    exists|i: int| 0 <= i < s.len() && #[trigger] s[i].id == id
}

/// Every number is below the next.
pub open spec fn strictly_sorted(v: Seq<u32>) -> bool {
    forall|i: int, j: int| 0 <= i < j < v.len() ==> v[i] < v[j]
}

/// The numbers of the live rooms among the first `n` whose unique id is
/// `uid`, in file order.
pub open spec fn uid_ids(s: Seq<RoomV>, uid: u32, n: int) -> Seq<u32>
    decreases n,
{
    if n <= 0 || n > s.len() {
        seq![]
    } else if live(s, n - 1) && uid_matches(s[n - 1].uid, uid) {
        uid_ids(s, uid, n - 1).push(s[n - 1].id)
    } else {
        uid_ids(s, uid, n - 1)
    }
}

fn insert_id(v: &mut Vec<u32>, x: u32)
    requires
        strictly_sorted(old(v)@),
    ensures
        strictly_sorted(final(v)@),
        forall|y: u32| final(v)@.contains(y) <==> (old(v)@.contains(y) || y == x),
{
    let mut j: usize = 0;
    while j < v.len() && v[j] < x
        invariant
            j <= v.len(),
            v@ == old(v)@,
            strictly_sorted(v@),
            forall|k: int| 0 <= k < j ==> v@[k] < x,
        decreases v.len() - j,
    {
        j += 1;
    }
    if j < v.len() && v[j] == x {
        assert(v@[j as int] == x);
        return;
    }
    let ghost before = v@;
    v.insert(j, x);
    assert forall|y: u32| v@.contains(y) <==> (before.contains(y) || y == x) by {
        if v@.contains(y) {
            let k = choose|k: int| 0 <= k < v@.len() && v@[k] == y;
            if k < j {
                assert(before[k] == y);
            } else if k > j {
                assert(before[k - 1] == y);
            }
        }
        if before.contains(y) {
            let k = choose|k: int| 0 <= k < before.len() && before[k] == y;
            if k < j {
                assert(v@[k] == y);
            } else {
                assert(v@[k + 1] == y);
            }
        }
        if y == x {
            assert(v@[j as int] == x);
        }
    }
    assert forall|a: int, b: int| 0 <= a < b < v@.len() implies v@[a] < v@[b] by {
        if a < j && b < j {
            assert(v@[a] == before[a] && v@[b] == before[b]);
        } else if a < j && b == j {
            assert(v@[a] == before[a]);
        } else if a < j && b > j {
            assert(v@[a] == before[a] && v@[b] == before[b - 1]);
            if j < before.len() {
                assert(before[j as int] > x);
            }
        } else if a == j {
            assert(v@[b] == before[b - 1]);
            assert(before[j as int] >= x);
            if b - 1 > j {
                assert(before[j as int] < before[b - 1]);
            }
        } else {
            assert(v@[a] == before[a - 1] && v@[b] == before[b - 1]);
        }
    }
    assert(before == old(v)@);
    assert(forall|y: u32| #[trigger] v@.contains(y) <==> (old(v)@.contains(y) || y == x));
}

impl MapData {
    /// A map of `rooms`, in the order given.
    pub fn new(rooms: Vec<MapRoom>) -> (r: MapData)
        ensures
            r@ == rooms_view(rooms@),
    {
        MapData { rooms }
    }

    /// The number of rooms (one for each room number).
    pub fn room_count(&self) -> (r: usize)
        ensures
            exists|ids: Seq<u32>| #[trigger] strictly_sorted(ids) && ids.len() == r && forall|id: u32|
                ids.contains(id) <==> has_id(self@, id),
    {
        self.room_ids().len()
    }

    /// The room numbered `id`.
    pub fn get_room(&self, id: u32) -> (r: Option<&MapRoom>)
        ensures
            match last_with_id(self@, id, self@.len() as int) {
                Some(i) => r matches Some(room) && room@ == self@[i],
                None => r is None,
            },
    {
        let mut i: usize = self.rooms.len();
        while i > 0
            invariant
                i <= self.rooms.len(),
                last_with_id(self@, id, self@.len() as int) == last_with_id(self@, id, i as int),
            decreases i,
        {
            if self.rooms[i - 1].id == id {
                return Some(&self.rooms[i - 1]);
            }
            i -= 1;
        }
        None
    }

    /// The room numbered `id` (the same as `get_room`).
    pub fn find_room_by_id(&self, id: u32) -> (r: Option<&MapRoom>)
        ensures
            match last_with_id(self@, id, self@.len() as int) {
                Some(i) => r matches Some(room) && room@ == self@[i],
                None => r is None,
            },
    {
        self.get_room(id)
    }

    fn is_live(&self, i: usize) -> (r: bool)
        requires
            i < self@.len(),
        ensures
            r == live(self@, i as int),
    {
        let n = self.rooms.len();
        let id = self.rooms[i].id;
        let mut k: usize = i + 1;
        while k < self.rooms.len()
            invariant
                i < k <= self.rooms.len(),
                id == self@[i as int].id,
                forall|j: int| i < j < k ==> self@[j].id != id,
            decreases self.rooms.len() - k,
        {
            if self.rooms[k].id == id {
                assert(self@[k as int].id == id);
                proof {
                    lemma_last_with_id(self@, id, self@.len() as int);
                }
                assert(last_with_id(self@, id, self@.len() as int) != Some(i as int));
                return false;
            }
            k += 1;
        }
        proof {
            lemma_last_with_id_at(self@, id, i as int, self@.len() as int);
        }
        true
    }

    /// Some room whose title holds `name`, ignoring case; none when no room
    /// does.
    pub fn find_room_by_name(&self, name: &str) -> (r: Option<&MapRoom>)
        ensures
            match r {
                Some(room) => exists|i: int| live(self@, i) && #[trigger] self@[i] == room@ && title_matches(room@, text::unicode_lowercase(name@)),
                None => forall|i: int| live(self@, i) ==> !title_matches(#[trigger] self@[i], text::unicode_lowercase(name@)),
            },
    {
        let lower = text::to_lowercase(name);
        let lc = text::chars_of(lower.as_str());
        let mut i: usize = 0;
        while i < self.rooms.len()
            invariant
                i <= self.rooms.len(),
                lc@ == text::unicode_lowercase(name@),
                forall|j: int| 0 <= j < i && live(self@, j) ==> !title_matches(#[trigger] self@[j], lc@),
            decreases self.rooms.len() - i,
        {
            if self.is_live(i) {
                let t = text::to_lowercase(self.rooms[i].title.as_str());
                let tc = text::chars_of(t.as_str());
                if text::find_sub_at(&tc, &lc, 0).is_some() {
                    assert(self@[i as int] == self.rooms@[i as int]@);
                    return Some(&self.rooms[i]);
                }
            }
            i += 1;
        }
        None
    }

    fn room_has_tag(&self, i: usize, ltag: &[char]) -> (r: bool)
        requires
            i < self@.len(),
        ensures
            r == has_tag(self@[i as int], ltag@),
    {
        assert(self@[i as int] == self.rooms@[i as int]@);
        assert(self@[i as int].tags == tag_views(self.rooms@[i as int].tags@));
        let r = tags_have(&self.rooms[i].tags, ltag);
        assert(r == has_tag(self@[i as int], ltag@)) by {
            let t = self@[i as int].tags;
            if r {
                let k = choose|k: int| 0 <= k < tag_views(self.rooms@[i as int].tags@).len() && text::unicode_lowercase(
                    #[trigger] tag_views(self.rooms@[i as int].tags@)[k],
                ) == ltag@;
                assert(text::unicode_lowercase(t[k]) == ltag@);
            }
            if has_tag(self@[i as int], ltag@) {
                let k = choose|k: int| 0 <= k < t.len() && text::unicode_lowercase(#[trigger] t[k]) == ltag@;
                assert(text::unicode_lowercase(tag_views(self.rooms@[i as int].tags@)[k]) == ltag@);
            }
        }
        r
    }

    /// Some room with a tag equal to `tag`, ignoring case; none when no room
    /// has one.
    pub fn find_room_by_tag(&self, tag: &str) -> (r: Option<&MapRoom>)
        ensures
            match r {
                Some(room) => exists|i: int| live(self@, i) && #[trigger] self@[i] == room@ && has_tag(room@, text::unicode_lowercase(tag@)),
                None => forall|i: int| live(self@, i) ==> !has_tag(#[trigger] self@[i], text::unicode_lowercase(tag@)),
            },
    {
        let lower = text::to_lowercase(tag);
        let lc = text::chars_of(lower.as_str());
        let mut i: usize = 0;
        while i < self.rooms.len()
            invariant
                i <= self.rooms.len(),
                lc@ == text::unicode_lowercase(tag@),
                forall|j: int| 0 <= j < i && live(self@, j) ==> !has_tag(#[trigger] self@[j], lc@),
            decreases self.rooms.len() - i,
        {
            if self.is_live(i) && self.room_has_tag(i, &lc) {
                assert(self@[i as int] == self.rooms@[i as int]@);
                return Some(&self.rooms[i]);
            }
            i += 1;
        }
        None
    }
}

proof fn lemma_last_with_id_at(s: Seq<RoomV>, id: u32, i: int, n: int)
    requires
        0 <= i < n <= s.len(),
        s[i].id == id,
        forall|j: int| i < j < n ==> s[j].id != id,
    ensures
        last_with_id(s, id, n) == Some(i),
    decreases n,
{
    if n - 1 > i {
        lemma_last_with_id_at(s, id, i, n - 1);
    }
}

impl MapData {
    /// The room numbers, each once, in increasing order.
    pub fn room_ids(&self) -> (r: Vec<u32>)
        ensures
            strictly_sorted(r@),
            forall|id: u32| r@.contains(id) <==> has_id(self@, id),
    {
        let mut out: Vec<u32> = Vec::new();
        let mut i: usize = 0;
        while i < self.rooms.len()
            invariant
                i <= self.rooms.len(),
                strictly_sorted(out@),
                forall|id: u32| out@.contains(id) <==> exists|k: int| 0 <= k < i && #[trigger] self@[k].id == id,
            decreases self.rooms.len() - i,
        {
            let x = self.rooms[i].id;
            assert(self@[i as int].id == x);
            insert_id(&mut out, x);
            i += 1;
        }
        out
    }

    /// The numbers of the rooms whose unique id is `uid`: a number equal to
    /// it, a list holding it, or a text that reads as it.
    pub fn ids_from_uid(&self, uid: u32) -> (r: Vec<u32>)
        ensures
            r@ == uid_ids(self@, uid, self@.len() as int),
    {
        let mut out: Vec<u32> = Vec::new();
        let mut i: usize = 0;
        while i < self.rooms.len()
            invariant
                i <= self.rooms.len(),
                out@ == uid_ids(self@, uid, i as int),
            decreases self.rooms.len() - i,
        {
            assert(self@[i as int] == self.rooms@[i as int]@);
            if self.is_live(i) && uid_matches_exec(&self.rooms[i].uid, uid) {
                out.push(self.rooms[i].id);
            }
            i += 1;
        }
        out
    }
}

fn tags_have(tags: &Vec<String>, ltag: &[char]) -> (r: bool)
    ensures
        r == exists|k: int| 0 <= k < tags@.len() && text::unicode_lowercase(#[trigger] tag_views(tags@)[k]) == ltag@,
{
    let ghost tv = tag_views(tags@);
    let mut k: usize = 0;
    while k < tags.len()
        invariant
            k <= tags.len(),
            tv == tag_views(tags@),
            forall|j: int| 0 <= j < k ==> text::unicode_lowercase(#[trigger] tv[j]) != ltag@,
        decreases tags.len() - k,
    {
        let t = text::to_lowercase(tags[k].as_str());
        assert(tv[k as int] == tags@[k as int]@);
        if text::seq_eq(&text::chars_of(t.as_str()), ltag) {
            assert(text::unicode_lowercase(tv[k as int]) == ltag@);
            return true;
        }
        k += 1;
    }
    false
}

fn options_have(v: &Vec<Option<u64>>, x: u64) -> (r: bool)
    ensures
        r == exists|k: int| 0 <= k < v@.len() && #[trigger] v@[k] == Some(x),
{
    let mut k: usize = 0;
    while k < v.len()
        invariant
            k <= v.len(),
            forall|j: int| 0 <= j < k ==> v@[j] != Some(x),
        decreases v.len() - k,
    {
        let hit = match v[k] {
            Some(n) => n == x,
            None => false,
        };
        if hit {
            assert(v@[k as int] == Some(x));
            return true;
        }
        k += 1;
    }
    false
}

fn uid_matches_exec(u: &RoomUid, uid: u32) -> (r: bool)
    ensures
        r == uid_matches(
            match *u {
                RoomUid::Missing => UidV::Missing,
                RoomUid::Number(n) => UidV::Number(n),
                RoomUid::Text(s) => UidV::Text(s@),
                RoomUid::List(v) => UidV::List(v@),
                RoomUid::Other => UidV::Other,
            },
            uid,
        ),
{
    match u {
        RoomUid::Number(n) => *n == Some(uid as u64),
        RoomUid::List(v) => options_have(v, uid as u64),
        RoomUid::Text(s) => match text::parse_u32(&text::chars_of(s.as_str())) {
            Some(n) => n == uid,
            None => false,
        },
        _ => false,
    }
}

} // verus!
