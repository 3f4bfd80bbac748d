use vstd::prelude::*;

use crate::json::{
    json_text_parse, parse_json, as_boolean, as_elements, as_text, field, get_boolean, get_elements, get_field, get_text, Json,
};
use crate::text::{decimal, equal_text};

verus! {

/// Where dsh answers the session list.
pub const SESSION_LIST_URL: &'static str = "http://127.0.0.1:3080/api/session.list";

/// The `Host` header of the session list request.
pub const SESSION_LIST_HOST: &'static str = "127.0.0.1:3080";

/// One session in dsh's session list: its id, whether a reply is being produced, and the
/// phase of its goal (empty where it has none).
pub struct SessionStatus {
    pub id: String,
    pub running: bool,
    pub goal_phase: String,
}

/// The text that a `Json` string value holds, or the empty text.
pub open spec fn text_or_empty(t: Option<Seq<char>>) -> Seq<char> {
    match t {
        Some(s) => s,
        None => Seq::empty(),
    }
}

/// What the list gives of one item: its `sessionId` (a string, else empty), `running` (a
/// boolean, else false) and `projections.values.goal.phase` (a string, else empty).
pub open spec fn item_status(item: Json) -> (Seq<char>, bool, Seq<char>) {
    let id = text_or_empty(as_text(field(Some(item), "sessionId"@)));
    let running = match as_boolean(field(Some(item), "running"@)) {
        Some(b) => b,
        None => false,
    };
    let goal = field(field(field(Some(item), "projections"@), "values"@), "goal"@);
    let phase = text_or_empty(as_text(field(goal, "phase"@)));
    (id, running, phase)
}

/// The sessions that the items describe, in order, leaving out items without a session id.
pub open spec fn statuses_of(items: Seq<Json>) -> Seq<(Seq<char>, bool, Seq<char>)>
    decreases items.len(),
{
    if items.len() == 0 {
        Seq::empty()
    } else {
        let before = statuses_of(items.drop_last());
        let st = item_status(items.last());
        if st.0.len() > 0 {
            before.push(st)
        } else {
            before
        }
    }
}

/// The items of a `session.list` reply: `result.value.items`, where that is an array.
pub open spec fn reply_items(reply: Json) -> Seq<Json> {
    match as_elements(field(field(field(Some(reply), "result"@), "value"@), "items"@)) {
        Some(items) => items,
        None => Seq::empty(),
    }
}

/// What a list of statuses says, each as (id, running, goal phase).
pub open spec fn status_view(s: Seq<SessionStatus>) -> Seq<(Seq<char>, bool, Seq<char>)> {
    s.map_values(|x: SessionStatus| (x.id@, x.running, x.goal_phase@))
}

fn text_or_empty_string(t: Option<&String>) -> (r: String)
    ensures
        r@ == text_or_empty(
            match t {
                Some(s) => Some(s@),
                None => None,
            },
        ),
{
    match t {
        Some(s) => s.clone(),
        None => String::new(),
    }
}

fn status_of_item(item: &Json) -> (r: SessionStatus)
    ensures
        (r.id@, r.running, r.goal_phase@) == item_status(*item),
{
    let id = text_or_empty_string(get_text(get_field(Some(item), "sessionId")));
    let running = match get_boolean(get_field(Some(item), "running")) {
        Some(b) => b,
        None => false,
    };
    let goal = get_field(get_field(get_field(Some(item), "projections"), "values"), "goal");
    let phase = text_or_empty_string(get_text(get_field(goal, "phase")));
    SessionStatus { id, running, goal_phase: phase }
}

/// The sessions of a `session.list` reply from dsh, in order: for each item of
/// `result.value.items` that has a session id, that id, whether it is running and its goal's
/// phase.
pub fn sessions_from_reply(reply: &Json) -> (r: Vec<SessionStatus>)
    ensures
        status_view(r@) == statuses_of(reply_items(*reply)),
{
    let items_opt = get_elements(get_field(
        get_field(get_field(Some(reply), "result"), "value"),
        "items",
    ));
    let mut r: Vec<SessionStatus> = Vec::new();
    match items_opt {
        None => {
            assert(status_view(r@) =~= Seq::empty());
            r
        },
        Some(items) => {
            let mut k: usize = 0;
            while k < items.len()
                invariant
                    k <= items@.len(),
                    status_view(r@) == statuses_of(items@.subrange(0, k as int)),
                decreases items@.len() - k,
            {
                let st = status_of_item(&items[k]);
                proof {
                    assert(items@.subrange(0, k + 1).drop_last() =~= items@.subrange(0, k as int));
                    assert(items@.subrange(0, k + 1).last() == items@[k as int]);
                }
                if st.id.unicode_len() > 0 {
                    let ghost before = r@;
                    let ghost sv = (st.id@, st.running, st.goal_phase@);
                    r.push(st);
                    proof {
                        assert(status_view(r@) =~= status_view(before).push(sv));
                    }
                }
                k = k + 1;
            }
            assert(items@.subrange(0, items@.len() as int) =~= items@);
            r
        },
    }
}

/// The sessions of the text of a `session.list` reply from dsh: an error where it is not
/// JSON (with `serde_json`'s message), else as `sessions_from_reply` reads them.
pub fn sessions_from_body(body: &str) -> (r: Result<Vec<SessionStatus>, String>)
    ensures
        json_text_parse(body@) is None ==> r is Err,
        json_text_parse(body@) matches Some(v) ==> (r matches Ok(s) && status_view(s@)
            == statuses_of(reply_items(v))),
{
    match parse_json(body) {
        Err(e) => Err(e),
        Ok(v) => Ok(sessions_from_reply(&v)),
    }
}

/// The request body that asks dsh for its session list; `millis` (the time in milliseconds
/// since the Unix epoch) tells one request from another.
pub fn session_list_request(millis: u64) -> (r: String)
    ensures
        r@ == "{\"type\":\"client-request\",\"rpcId\":\"n"@ + crate::text::decimal_text(millis as nat)
            + "\",\"method\":\"session.list\",\"payload\":{}}"@,
{
    String::from_str("{\"type\":\"client-request\",\"rpcId\":\"n").concat(decimal(millis).as_str()).concat(
        "\",\"method\":\"session.list\",\"payload\":{}}",
    )
}


/// How long, in nanoseconds, another turn-end chime of a session is held back after one.
pub const TURN_END_QUIET_NANOS: u64 = 30_000_000_000;

/// What the watch remembers of a session.
pub struct SessionMemory {
    /// Whether it was running when last seen.
    pub running: bool,
    /// Its goal's phase when last seen.
    pub goal_phase: Seq<char>,
    /// When its last turn-end chime sounded, if ever.
    pub last_turn_end: Option<u64>,
    /// Whether its goal's completion has chimed.
    pub goal_done: bool,
}

/// The chimes that one sighting of a session sounds.
#[derive(PartialEq, Eq, Structural, Clone, Copy, Debug)]
pub struct Chimes {
    /// A reply ended: the session went from running to not running.
    pub turn_end: bool,
    /// The session's goal went from `active` to `complete`.
    pub goal_complete: bool,
}

/// One sighting of a session, as the watch is told of it: time in nanoseconds on a
/// monotonic clock.
pub struct Sighting {
    pub id: Seq<char>,
    pub running: bool,
    pub goal_phase: Seq<char>,
    pub now: u64,
}

/// What a sighting does to what is remembered of its session (`None` where it was never
/// seen), and which chimes it sounds.
///
/// A turn-end chime sounds where the session was running and now is not, unless one sounded
/// for it less than 30 s before. A goal chime sounds where its goal was `active` and now is
/// `complete`, once per session.
pub open spec fn sight(prev: Option<SessionMemory>, running: bool, goal_phase: Seq<char>, now: u64)
    -> (SessionMemory, Chimes) {
    let was_running = prev matches Some(m) && m.running;
    let last = match prev {
        Some(m) => m.last_turn_end,
        None => None,
    };
    let held_back = match last {
        Some(t) => now < t + TURN_END_QUIET_NANOS,
        None => false,
    };
    let turn_end = !running && was_running && !held_back;
    let was_active = prev matches Some(m) && m.goal_phase == "active"@;
    let done = prev matches Some(m) && m.goal_done;
    let goal_complete = goal_phase == "complete"@ && was_active && !done;
    (
        SessionMemory {
            running,
            goal_phase,
            last_turn_end: if turn_end {
                Some(now)
            } else {
                last
            },
            goal_done: done || goal_complete,
        },
        Chimes { turn_end, goal_complete },
    )
}

/// What a map of remembered sessions holds for `id`.
pub open spec fn recall(m: Map<Seq<char>, SessionMemory>, id: Seq<char>) -> Option<SessionMemory> {
    if m.dom().contains(id) {
        Some(m[id])
    } else {
        None
    }
}

/// A sighting applied to all that is remembered: the new memory, and the chimes.
pub open spec fn watch_step(m: Map<Seq<char>, SessionMemory>, s: Sighting) -> (
    Map<Seq<char>, SessionMemory>,
    Chimes,
) {
    let (mem, chimes) = sight(recall(m, s.id), s.running, s.goal_phase, s.now);
    (m.insert(s.id, mem), chimes)
}

/// What is remembered after a series of sightings.
pub open spec fn watch_after(m: Map<Seq<char>, SessionMemory>, seen: Seq<Sighting>) -> Map<
    Seq<char>,
    SessionMemory,
>
    decreases seen.len(),
{
    if seen.len() == 0 {
        m
    } else {
        watch_step(watch_after(m, seen.drop_last()), seen.last()).0
    }
}

/// The chimes of the sighting at position `k` of a series.
pub open spec fn chimes_at(m: Map<Seq<char>, SessionMemory>, seen: Seq<Sighting>, k: int) -> Chimes {
    watch_step(watch_after(m, seen.take(k)), seen[k]).1
}

struct SessionTrack {
    id: String,
    running: bool,
    goal_phase: String,
    last_turn_end: Option<u64>,
    goal_done: bool,
}

spec fn track_memory(t: SessionTrack) -> SessionMemory {
    SessionMemory {
        running: t.running,
        goal_phase: t.goal_phase@,
        last_turn_end: t.last_turn_end,
        goal_done: t.goal_done,
    }
}

spec fn memory_of(tracks: Seq<SessionTrack>) -> Map<Seq<char>, SessionMemory>
    decreases tracks.len(),
{
    if tracks.len() == 0 {
        Map::empty()
    } else {
        memory_of(tracks.drop_first()).insert(tracks[0].id@, track_memory(tracks[0]))
    }
}

proof fn lemma_memory_absent(tracks: Seq<SessionTrack>, id: Seq<char>)
    requires
        forall|j: int| 0 <= j < tracks.len() ==> tracks[j].id@ != id,
    ensures
        !memory_of(tracks).dom().contains(id),
    decreases tracks.len(),
{
    if tracks.len() > 0 {
        lemma_memory_absent(tracks.drop_first(), id);
    }
}

proof fn lemma_memory_first(tracks: Seq<SessionTrack>, id: Seq<char>, i: int)
    requires
        0 <= i < tracks.len(),
        tracks[i].id@ == id,
        forall|j: int| 0 <= j < i ==> tracks[j].id@ != id,
    ensures
        recall(memory_of(tracks), id) == Some(track_memory(tracks[i])),
    decreases i,
{
    if i > 0 {
        lemma_memory_first(tracks.drop_first(), id, i - 1);
    }
}

proof fn lemma_memory_update(tracks: Seq<SessionTrack>, id: Seq<char>, i: int, t: SessionTrack)
    requires
        0 <= i < tracks.len(),
        tracks[i].id@ == id,
        t.id@ == id,
        forall|j: int| 0 <= j < i ==> tracks[j].id@ != id,
    ensures
        memory_of(tracks.update(i, t)) == memory_of(tracks).insert(id, track_memory(t)),
    decreases i,
{
    let u = tracks.update(i, t);
    if i == 0 {
        assert(u.drop_first() =~= tracks.drop_first());
        assert(memory_of(u) =~= memory_of(tracks).insert(id, track_memory(t)));
    } else {
        assert(u.drop_first() =~= tracks.drop_first().update(i - 1, t));
        lemma_memory_update(tracks.drop_first(), id, i - 1, t);
        assert(memory_of(u) =~= memory_of(tracks).insert(id, track_memory(t)));
    }
}

/// Watches dsh's sessions and decides when to chime: when a reply ends (a session stops
/// running; at most once per session in 30 s), and when a session's goal completes (once
/// per session).
pub struct CompletionWatch {
    tracks: Vec<SessionTrack>,
}

impl View for CompletionWatch {
    type V = Map<Seq<char>, SessionMemory>;

    closed spec fn view(&self) -> Map<Seq<char>, SessionMemory> {
        memory_of(self.tracks@)
    }
}

impl CompletionWatch {
    /// A watch that remembers no session.
    pub fn new() -> (r: Self)
        ensures
            r@ == Map::<Seq<char>, SessionMemory>::empty(),
    {
        CompletionWatch { tracks: Vec::new() }
    }

    /// Takes in one sighting of a session at time `now` (nanoseconds on a monotonic clock)
    /// and says which chimes to sound.
    pub fn observe(&mut self, id: &str, running: bool, goal_phase: &str, now: u64) -> (r: Chimes)
        ensures
            (final(self)@, r) == watch_step(
                old(self)@,
                Sighting { id: id@, running, goal_phase: goal_phase@, now },
            ),
    {
        let n = self.tracks.len();
        let mut i: usize = 0;
        while i < n && !equal_text(self.tracks[i].id.as_str(), id)
            invariant
                n == self.tracks@.len(),
                i <= n,
                forall|j: int| 0 <= j < i ==> self.tracks@[j].id@ != id@,
            decreases n - i,
        {
            i = i + 1;
        }
        let ghost prev = recall(self@, id@);
        let ghost spec_step = sight(prev, running, goal_phase@, now);
        let (was_running, last, was_active, done) = if i < n {
            proof {
                lemma_memory_first(self.tracks@, id@, i as int);
            }
            let t = &self.tracks[i];
            (t.running, t.last_turn_end, equal_text(t.goal_phase.as_str(), "active"), t.goal_done)
        } else {
            proof {
                lemma_memory_absent(self.tracks@, id@);
            }
            (false, None, false, false)
        };
        proof {
            reveal_strlit("active");
            reveal_strlit("complete");
        }
        let held_back = match last {
            Some(t) => now < t || now - t < TURN_END_QUIET_NANOS,
            None => false,
        };
        let turn_end = !running && was_running && !held_back;
        let goal_complete = equal_text(goal_phase, "complete") && was_active && !done;
        let track = SessionTrack {
            id: String::from_str(id),
            running,
            goal_phase: String::from_str(goal_phase),
            last_turn_end: if turn_end {
                Some(now)
            } else {
                last
            },
            goal_done: done || goal_complete,
        };
        assert(track_memory(track) == spec_step.0);
        if i < n {
            proof {
                lemma_memory_update(self.tracks@, id@, i as int, track);
            }
            self.tracks.set(i, track);
        } else {
            let ghost before = self.tracks@;
            self.tracks.insert(0, track);
            proof {
                assert(self.tracks@.drop_first() =~= before);
            }
        }
        Chimes { turn_end, goal_complete }
    }
}


proof fn lemma_after_step(m: Map<Seq<char>, SessionMemory>, seen: Seq<Sighting>, k: int)
    requires
        0 <= k < seen.len(),
    ensures
        watch_after(m, seen.take(k + 1)) == watch_step(watch_after(m, seen.take(k)), seen[k]).0,
{
    assert(seen.take(k + 1).drop_last() =~= seen.take(k));
    assert(seen.take(k + 1).last() == seen[k]);
}

proof fn lemma_turn_end_remembered(
    m: Map<Seq<char>, SessionMemory>,
    seen: Seq<Sighting>,
    i: int,
    k: int,
)
    requires
        0 <= i < k <= seen.len(),
        chimes_at(m, seen, i).turn_end,
    ensures
        recall(watch_after(m, seen.take(k)), seen[i].id) matches Some(mem) && mem.last_turn_end
            matches Some(t) && t >= seen[i].now,
    decreases k,
{
    lemma_after_step(m, seen, k - 1);
    if k > i + 1 {
        lemma_turn_end_remembered(m, seen, i, k - 1);
    }
}

proof fn lemma_goal_remembered(m: Map<Seq<char>, SessionMemory>, seen: Seq<Sighting>, i: int, k: int)
    requires
        0 <= i < k <= seen.len(),
        chimes_at(m, seen, i).goal_complete,
    ensures
        recall(watch_after(m, seen.take(k)), seen[i].id) matches Some(mem) && mem.goal_done,
    decreases k,
{
    lemma_after_step(m, seen, k - 1);
    if k > i + 1 {
        lemma_goal_remembered(m, seen, i, k - 1);
    }
}

/// Two turn-end chimes of one session, in any series of sightings and from any memory, are
/// at least 30 s apart: the later one comes at least 30 s after the earlier.
pub proof fn law_turn_end_chimes_spaced(
    m: Map<Seq<char>, SessionMemory>,
    seen: Seq<Sighting>,
    i: int,
    j: int,
)
    requires
        0 <= i < j < seen.len(),
        seen[i].id == seen[j].id,
        chimes_at(m, seen, i).turn_end,
        chimes_at(m, seen, j).turn_end,
    ensures
        seen[j].now >= seen[i].now + TURN_END_QUIET_NANOS,
{
    lemma_turn_end_remembered(m, seen, i, j);
}

/// A session's goal completion chimes at most once in any series of sightings: no two
/// sightings of one session both sound the goal chime.
pub proof fn law_goal_chime_once(m: Map<Seq<char>, SessionMemory>, seen: Seq<Sighting>, i: int, j: int)
    requires
        0 <= i < j < seen.len(),
        seen[i].id == seen[j].id,
    ensures
        !(chimes_at(m, seen, i).goal_complete && chimes_at(m, seen, j).goal_complete),
{
    if chimes_at(m, seen, i).goal_complete {
        lemma_goal_remembered(m, seen, i, j);
    }
}

/// A turn-end chime sounds only where the session had been seen running and is now seen
/// not running; a goal chime only where its goal was last seen `active` and is now
/// `complete`.
pub proof fn law_chimes_follow_transitions(m: Map<Seq<char>, SessionMemory>, s: Sighting)
    ensures
        watch_step(m, s).1.turn_end ==> !s.running && (recall(m, s.id) matches Some(p)
            && p.running),
        watch_step(m, s).1.goal_complete ==> s.goal_phase == "complete"@ && (recall(m, s.id)
            matches Some(p) && p.goal_phase == "active"@),
{
}

/// When the turn-end chime sounds, in terms of the sighting and what was remembered of the
/// session: exactly where the session was last seen running, is now seen not running, and no
/// turn-end chime of it sounded less than 30 s before (whatever its goal's phase). Where it
/// sounds, its time is remembered; where not, the remembered time stays.
pub proof fn law_turn_end_chime_exactly(m: Map<Seq<char>, SessionMemory>, s: Sighting)
    ensures
        watch_step(m, s).1.turn_end == (!s.running && m.dom().contains(s.id) && m[s.id].running
            && match m[s.id].last_turn_end {
            Some(t) => s.now >= t + TURN_END_QUIET_NANOS,
            None => true,
        }),
        watch_step(m, s).0.dom().contains(s.id),
        watch_step(m, s).1.turn_end ==> watch_step(m, s).0[s.id].last_turn_end == Some(s.now),
        !watch_step(m, s).1.turn_end && m.dom().contains(s.id) ==> watch_step(m, s).0[s.id].last_turn_end
            == m[s.id].last_turn_end,
        watch_step(m, s).0[s.id].running == s.running,
        watch_step(m, s).0[s.id].goal_phase == s.goal_phase,
        forall|other: Seq<char>|
            other != s.id && m.dom().contains(other) ==> #[trigger] watch_step(m, s).0.dom().contains(
                other,
            ) && watch_step(m, s).0[other] == m[other],
{
}

/// When the goal chime sounds: exactly where the session's goal was last seen `active`, is
/// now seen `complete`, and its completion has not chimed before (whether it runs or not).
pub proof fn law_goal_chime_exactly(m: Map<Seq<char>, SessionMemory>, s: Sighting)
    ensures
        watch_step(m, s).1.goal_complete == (s.goal_phase == "complete"@ && m.dom().contains(s.id)
            && m[s.id].goal_phase == "active"@ && !m[s.id].goal_done),
        watch_step(m, s).0[s.id].goal_done == (watch_step(m, s).1.goal_complete || (m.dom().contains(
            s.id,
        ) && m[s.id].goal_done)),
{
}

/// How an item of the session list is read, in terms of its JSON: its `running` member, where
/// that is a boolean, is whether it runs (false stays false), and it does not run where the
/// member is absent or not a boolean; its `sessionId` and `projections.values.goal.phase`
/// members, where they are strings, are its id and goal phase, else the empty text.
pub proof fn law_item_read_from_members(item: Json)
    ensures
        field(Some(item), "running"@) matches Some(Json::Bool(b)) ==> item_status(item).1 == b,
        !(field(Some(item), "running"@) matches Some(Json::Bool(_))) ==> !item_status(item).1,
        field(Some(item), "sessionId"@) matches Some(Json::Str(id)) ==> item_status(item).0 == id@,
        !(field(Some(item), "sessionId"@) matches Some(Json::Str(_))) ==> item_status(item).0.len()
            == 0,
        field(field(field(field(Some(item), "projections"@), "values"@), "goal"@), "phase"@) matches Some(
            Json::Str(p),
        ) ==> item_status(item).2 == p@,
{
}

/// The sessions read from a list of items are, in order, those of the items with a non-empty
/// session id: each appended one is the last item's reading.
pub proof fn law_statuses_keep_items_with_ids(items: Seq<Json>, item: Json)
    ensures
        item_status(item).0.len() > 0 ==> statuses_of(items.push(item)) == statuses_of(items).push(
            item_status(item),
        ),
        item_status(item).0.len() == 0 ==> statuses_of(items.push(item)) == statuses_of(items),
        statuses_of(Seq::empty()) == Seq::<(Seq<char>, bool, Seq<char>)>::empty(),
{
    assert(items.push(item).drop_last() =~= items);
}

} // verus!
