use vstd::prelude::*;

use crate::common::{get_time_command, time_view, ChallengeTime, ChallengeTimeDifficulty};
use crate::dsc::{commands_view, DSCVM};
use crate::opcodes::{same_command, Command, CommandView, Opcode, OpcodeMeta};

verus! {

/// Whether commands of this opcode place or shape targets; a source can ask
/// for them to be dropped.
pub open spec fn is_target(op: Opcode) -> bool {
    op == Opcode::TARGET || op == Opcode::TARGET_FLYING_TIME || op == Opcode::TARGET_EFFECT
        || op == Opcode::TARGET_FLAG || op == Opcode::EDIT_TARGET
}

/// The commands that share one timestamp.
pub struct Event {
    pub time: i32,
    pub commands: Vec<Command>,
}

/// The value of an event: a timestamp and its commands in arrival order.
pub ghost struct EventView {
    pub time: i32,
    pub commands: Seq<CommandView>,
}

impl View for Event {
    type V = EventView;

    open spec fn view(&self) -> EventView {
        EventView { time: self.time, commands: commands_view(self.commands@) }
    }
}

impl Event {
    pub fn new(time: i32, commands: Vec<Command>) -> (r: Self)
        ensures
            r@ == (EventView { time, commands: commands_view(commands@) }),
    {
        Event { time, commands }
    }
}

/// Whether `cmds` holds a command that is the same as `c`.
pub open spec fn contains_same(cmds: Seq<CommandView>, c: CommandView) -> bool {
    exists|j: int| 0 <= j < cmds.len() && same_command(#[trigger] cmds[j], c)
}

/// Whether no two commands of `cmds` are the same.
pub open spec fn no_duplicates(cmds: Seq<CommandView>) -> bool {
    forall|i: int, j: int|
        0 <= i < j < cmds.len() ==> !same_command(#[trigger] cmds[i], #[trigger] cmds[j])
}

/// Whether the timestamps of `evs` strictly ascend.
pub open spec fn sorted_times(evs: Seq<EventView>) -> bool {
    forall|i: int, j: int| 0 <= i < j < evs.len() ==> #[trigger] evs[i].time < #[trigger] evs[j].time
}

/// The buckets of a merge: one per timestamp, in ascending order, none of
/// them holding the same command twice.
pub open spec fn events_wf(evs: Seq<EventView>) -> bool {
    &&& sorted_times(evs)
    &&& forall|i: int| 0 <= i < evs.len() ==> no_duplicates(#[trigger] evs[i].commands)
    &&& forall|i: int| 0 <= i < evs.len() ==> no_time_markers(#[trigger] evs[i].commands)
}

/// Whether no command of `cmds` is a time marker.
pub open spec fn no_time_markers(cmds: Seq<CommandView>) -> bool {
    forall|j: int| 0 <= j < cmds.len() ==> (#[trigger] cmds[j]).meta.opcode != Opcode::TIME
}

/// The time markers of `cmds`, in order.
pub open spec fn time_markers(cmds: Seq<CommandView>) -> Seq<CommandView>
    decreases cmds.len(),
{
    if cmds.len() == 0 {
        cmds
    } else if cmds.last().meta.opcode == Opcode::TIME {
        time_markers(cmds.drop_last()).push(cmds.last())
    } else {
        time_markers(cmds.drop_last())
    }
}

/// The index of the first bucket whose timestamp is at least `t`.
pub open spec fn slot(evs: Seq<EventView>, t: i32) -> int
    decreases evs.len(),
{
    if evs.len() == 0 {
        0
    } else if evs[0].time >= t {
        0
    } else {
        1 + slot(evs.drop_first(), t)
    }
}

/// The buckets after `c` arrives at timestamp `t`: appended to the bucket of
/// `t` unless that bucket already holds the same command; a new bucket, in
/// its place in the order, when `t` had none.
pub open spec fn add_to_bucket(evs: Seq<EventView>, t: i32, c: CommandView) -> Seq<EventView> {
    let k = slot(evs, t);
    if k < evs.len() && evs[k].time == t {
        if contains_same(evs[k].commands, c) {
            evs
        } else {
            evs.update(k, EventView { time: t, commands: evs[k].commands.push(c) })
        }
    } else {
        evs.insert(k, EventView { time: t, commands: seq![c] })
    }
}

/// The timestamp in effect after `c`: a time marker sets it.
pub open spec fn next_tick(tick: i32, c: CommandView) -> i32 {
    if c.meta.opcode == Opcode::TIME && c.args.len() > 0 {
        c.args[0]
    } else {
        tick
    }
}

/// The timestamp in effect at position `i` of `cmds`, starting from `tick`.
pub open spec fn tick_at(tick: i32, cmds: Seq<CommandView>, i: int) -> i32
    decreases i,
{
    if i <= 0 || cmds.len() == 0 {
        tick
    } else {
        tick_at(next_tick(tick, cmds[0]), cmds.drop_first(), i - 1)
    }
}

/// The buckets after the timeline `cmds` is absorbed, from timestamp `tick`:
/// time markers move the timestamp; target commands are dropped when
/// `remove` is set; every other command goes to the bucket of the timestamp.
pub open spec fn absorb(evs: Seq<EventView>, tick: i32, cmds: Seq<CommandView>, remove: bool) -> Seq<
    EventView,
>
    decreases cmds.len(),
{
    if cmds.len() == 0 {
        evs
    } else {
        let c = cmds[0];
        let rest = cmds.drop_first();
        if remove && is_target(c.meta.opcode) {
            absorb(evs, tick, rest, remove)
        } else if c.meta.opcode == Opcode::TIME {
            absorb(evs, next_tick(tick, c), rest, remove)
        } else {
            absorb(add_to_bucket(evs, tick, c), tick, rest, remove)
        }
    }
}

/// The merged timeline: for each bucket in order, a time marker and then the
/// bucket's commands.
pub open spec fn flatten(evs: Seq<EventView>) -> Seq<CommandView>
    decreases evs.len(),
{
    if evs.len() == 0 {
        Seq::empty()
    } else {
        flatten(evs.drop_last()) + seq![time_view(evs.last().time)] + evs.last().commands
    }
}

/// The first argument of the mode-select marker of a challenge time.
pub open spec fn mode_select_type(d: ChallengeTimeDifficulty) -> i32 {
    match d {
        ChallengeTimeDifficulty::Easy => 17,
        ChallengeTimeDifficulty::Normal => 2,
    }
}

/// The mode-select marker `MODE_SELECT(kind, phase)`.
pub open spec fn mode_select_view(kind: i32, phase: i32) -> CommandView {
    CommandView {
        meta: OpcodeMeta { id: 26, opcode: Opcode::MODE_SELECT, param_count: 2 },
        args: seq![kind, phase],
    }
}

/// Whether the bucket of `t` holds exactly the command `x`.
pub open spec fn present(evs: Seq<EventView>, t: i32, x: CommandView) -> bool {
    exists|k: int, j: int|
        0 <= k < evs.len() && 0 <= j < evs[k].commands.len() && evs[k].time == t
            && #[trigger] evs[k].commands[j] == x
}

/// Whether the bucket of `t` holds a command that is the same as `c`.
pub open spec fn has_same(evs: Seq<EventView>, t: i32, c: CommandView) -> bool {
    exists|k: int| 0 <= k < evs.len() && #[trigger] evs[k].time == t && contains_same(evs[k].commands, c)
}

proof fn lemma_time_markers_concat(a: Seq<CommandView>, b: Seq<CommandView>)
    ensures
        time_markers(a + b) == time_markers(a) + time_markers(b),
    decreases b.len(),
{
    if b.len() == 0 {
        assert(a + b =~= a);
        assert(time_markers(a) + time_markers(b) =~= time_markers(a));
    } else {
        assert((a + b).drop_last() =~= a + b.drop_last());
        lemma_time_markers_concat(a, b.drop_last());
        if b.last().meta.opcode == Opcode::TIME {
            assert(time_markers(a + b) =~= time_markers(a) + time_markers(b));
        } else {
            assert(time_markers(a + b) =~= time_markers(a) + time_markers(b));
        }
    }
}

proof fn lemma_no_time_markers(cmds: Seq<CommandView>)
    requires
        no_time_markers(cmds),
    ensures
        time_markers(cmds) == Seq::<CommandView>::empty(),
    decreases cmds.len(),
{
    if cmds.len() > 0 {
        assert(no_time_markers(cmds.drop_last())) by {
            assert forall|j: int| 0 <= j < cmds.drop_last().len() implies (
            #[trigger] cmds.drop_last()[j]).meta.opcode != Opcode::TIME by {
                assert(cmds.drop_last()[j] == cmds[j]);
            }
        }
        lemma_no_time_markers(cmds.drop_last());
        assert(cmds[cmds.len() - 1].meta.opcode != Opcode::TIME);
    }
}

/// The merged timeline holds exactly one time marker per bucket, in the
/// buckets' strictly ascending order of timestamp, and starts with the
/// marker of the earliest bucket.
pub proof fn lemma_flatten_time_markers(evs: Seq<EventView>)
    requires
        events_wf(evs),
    ensures
        time_markers(flatten(evs)) == Seq::new(evs.len(), |i: int| time_view(evs[i].time)),
        forall|i: int, j: int| 0 <= i < j < evs.len() ==> #[trigger] evs[i].time < #[trigger] evs[j].time,
        evs.len() > 0 ==> flatten(evs)[0] == time_view(evs[0].time),
    decreases evs.len(),
{
    if evs.len() > 0 {
        let rest = evs.drop_last();
        assert(events_wf(rest)) by {
            assert forall|i: int, j: int| 0 <= i < j < rest.len() implies #[trigger] rest[i].time
                < #[trigger] rest[j].time by {
                assert(rest[i] == evs[i] && rest[j] == evs[j]);
            }
            assert forall|i: int| 0 <= i < rest.len() implies no_duplicates(#[trigger] rest[i].commands) by {
                assert(rest[i] == evs[i]);
            }
            assert forall|i: int| 0 <= i < rest.len() implies no_time_markers(#[trigger] rest[i].commands) by {
                assert(rest[i] == evs[i]);
            }
        }
        lemma_flatten_time_markers(rest);
        let last = evs.last();
        assert(no_time_markers(evs[evs.len() - 1].commands));
        lemma_no_time_markers(last.commands);
        lemma_time_markers_concat(flatten(rest) + seq![time_view(last.time)], last.commands);
        lemma_time_markers_concat(flatten(rest), seq![time_view(last.time)]);
        assert(seq![time_view(last.time)].drop_last() =~= Seq::<CommandView>::empty());
        assert(time_markers(Seq::<CommandView>::empty()) =~= Seq::<CommandView>::empty());
        assert(seq![time_view(last.time)].last() == time_view(last.time));
        assert(time_markers(seq![time_view(last.time)]) =~= seq![time_view(last.time)]);
        assert(time_markers(flatten(evs)) =~= Seq::new(evs.len(), |i: int| time_view(evs[i].time)));
        if rest.len() == 0 {
            assert(flatten(rest) =~= Seq::<CommandView>::empty());
        }
    }
}

proof fn lemma_tick_prefix(t: i32, a: Seq<CommandView>, b: Seq<CommandView>, i: int)
    requires
        0 <= i <= a.len(),
    ensures
        tick_at(t, a + b, i) == tick_at(t, a, i),
    decreases i,
{
    if i > 0 {
        assert((a + b)[0] == a[0]);
        assert((a + b).drop_first() =~= a.drop_first() + b);
        lemma_tick_prefix(next_tick(t, a[0]), a.drop_first(), b, i - 1);
    }
}

proof fn lemma_tick_split(t: i32, a: Seq<CommandView>, b: Seq<CommandView>, j: int)
    requires
        0 <= j,
    ensures
        tick_at(t, a + b, a.len() + j) == tick_at(tick_at(t, a, a.len() as int), b, j),
    decreases a.len(),
{
    if a.len() == 0 {
        assert(a + b =~= b);
    } else {
        assert((a + b)[0] == a[0]);
        assert((a + b).drop_first() =~= a.drop_first() + b);
        lemma_tick_split(next_tick(t, a[0]), a.drop_first(), b, j);
    }
}

proof fn lemma_tick_steady(t: i32, c: Seq<CommandView>, j: int)
    requires
        no_time_markers(c),
    ensures
        tick_at(t, c, j) == t,
    decreases j,
{
    if j > 0 && c.len() > 0 {
        assert(c[0].meta.opcode != Opcode::TIME);
        assert(no_time_markers(c.drop_first())) by {
            assert forall|k: int| 0 <= k < c.drop_first().len() implies (
            #[trigger] c.drop_first()[k]).meta.opcode != Opcode::TIME by {
                assert(c.drop_first()[k] == c[k + 1]);
            }
        }
        lemma_tick_steady(t, c.drop_first(), j - 1);
    }
}

/// Whether `out` holds `x`, no time marker, at a position where the
/// timestamp in effect (from 0) is `t`.
pub open spec fn positioned(out: Seq<CommandView>, t: i32, x: CommandView) -> bool {
    exists|q: int|
        0 <= q < out.len() && #[trigger] out[q] == x && tick_at(0, out, q) == t
            && x.meta.opcode != Opcode::TIME
}

proof fn lemma_last_bucket_tick(evs: Seq<EventView>, j: int)
    requires
        events_wf(evs),
        evs.len() > 0,
        0 <= j,
    ensures
        flatten(evs) == flatten(evs.drop_last()) + seq![time_view(evs.last().time)] + evs.last().commands,
        tick_at(
            0,
            flatten(evs),
            flatten(evs.drop_last()).len() + 1 + j,
        ) == evs.last().time,
{
    let f = flatten(evs.drop_last());
    let mk = seq![time_view(evs.last().time)];
    let c = evs.last().commands;
    lemma_tick_split(0, f + mk, c, j);
    lemma_tick_split(0, f, mk, 1);
    assert(mk.drop_first() =~= Seq::<CommandView>::empty());
    let x = tick_at(0, f, f.len() as int);
    assert(mk[0] == time_view(evs.last().time));
    assert(time_view(evs.last().time).args[0] == evs.last().time);
    assert(next_tick(x, mk[0]) == evs.last().time);
    assert(tick_at(next_tick(x, mk[0]), mk.drop_first(), 0) == evs.last().time);
    assert(tick_at(x, mk, 1) == evs.last().time);
    assert(no_time_markers(evs[evs.len() - 1].commands));
    lemma_tick_steady(evs.last().time, c, j);
}

proof fn lemma_wf_drop_last(evs: Seq<EventView>)
    requires
        events_wf(evs),
        evs.len() > 0,
    ensures
        events_wf(evs.drop_last()),
{
    let rest = evs.drop_last();
    assert forall|i: int, j: int| 0 <= i < j < rest.len() implies #[trigger] rest[i].time
        < #[trigger] rest[j].time by {
        assert(rest[i] == evs[i] && rest[j] == evs[j]);
    }
    assert forall|i: int| 0 <= i < rest.len() implies no_duplicates(#[trigger] rest[i].commands) by {
        assert(rest[i] == evs[i]);
    }
    assert forall|i: int| 0 <= i < rest.len() implies no_time_markers(#[trigger] rest[i].commands) by {
        assert(rest[i] == evs[i]);
    }
}

/// A command in the bucket of `t` stands in the merged timeline where the
/// timestamp in effect is `t`.
pub proof fn lemma_flatten_has(evs: Seq<EventView>, t: i32, x: CommandView)
    requires
        events_wf(evs),
        present(evs, t, x),
    ensures
        positioned(flatten(evs), t, x),
    decreases evs.len(),
{
    let (k, j) = choose|k: int, j: int|
        0 <= k < evs.len() && 0 <= j < evs[k].commands.len() && evs[k].time == t
            && #[trigger] evs[k].commands[j] == x;
    let rest = evs.drop_last();
    let f = flatten(rest);
    let tail = seq![time_view(evs.last().time)] + evs.last().commands;
    lemma_wf_drop_last(evs);
    lemma_last_bucket_tick(evs, j);
    assert(flatten(evs) =~= f + tail);
    assert(no_time_markers(evs[k].commands));
    if k < evs.len() - 1 {
        assert(rest[k].commands[j] == x);
        assert(present(rest, t, x));
        lemma_flatten_has(rest, t, x);
        let q = choose|q: int|
            0 <= q < f.len() && #[trigger] f[q] == x && tick_at(0, f, q) == t
                && x.meta.opcode != Opcode::TIME;
        lemma_tick_prefix(0, f, tail, q);
        assert(flatten(evs)[q] == x);
    } else {
        let q = f.len() + 1 + j;
        assert(flatten(evs)[q] == x);
    }
}

/// Every command of the merged timeline but the time markers is in the
/// bucket of the timestamp in effect where it stands.
pub proof fn lemma_flatten_from(evs: Seq<EventView>, t: i32, x: CommandView)
    requires
        events_wf(evs),
        positioned(flatten(evs), t, x),
    ensures
        present(evs, t, x),
    decreases evs.len(),
{
    let out = flatten(evs);
    let q = choose|q: int|
        0 <= q < out.len() && #[trigger] out[q] == x && tick_at(0, out, q) == t
            && x.meta.opcode != Opcode::TIME;
    if evs.len() == 0 {
        assert(false);
    } else {
        let rest = evs.drop_last();
        let f = flatten(rest);
        let tail = seq![time_view(evs.last().time)] + evs.last().commands;
        lemma_wf_drop_last(evs);
        assert(out =~= f + tail);
        if q < f.len() {
            lemma_tick_prefix(0, f, tail, q);
            assert(f[q] == x);
            assert(positioned(f, t, x));
            lemma_flatten_from(rest, t, x);
            let (k, j) = choose|k: int, j: int|
                0 <= k < rest.len() && 0 <= j < rest[k].commands.len() && rest[k].time == t
                    && #[trigger] rest[k].commands[j] == x;
            assert(evs[k] == rest[k]);
            assert(evs[k].commands[j] == x);
        } else if q == f.len() {
            assert(out[q] == time_view(evs.last().time));
        } else {
            let j = q - f.len() - 1;
            lemma_last_bucket_tick(evs, j);
            let k = evs.len() - 1;
            assert(evs[k].commands[j] == x);
        }
    }
}

/// Merging one timeline and flattening it: the time markers of the result
/// ascend strictly, one per timestamp; every command of the timeline but its
/// time markers stands in the result (itself or one the same as it) where
/// the same timestamp is in effect; every other command of the result comes
/// from the timeline, at the timestamp it had there; and the buckets it is
/// flattened from are well formed, so that no bucket holds a command twice.
pub proof fn lemma_merge_single_output(cmds: Seq<CommandView>)
    ensures
        events_wf(absorb(Seq::empty(), 0, cmds, false)),
        time_markers(flatten(absorb(Seq::empty(), 0, cmds, false))) == Seq::new(
            absorb(Seq::empty(), 0, cmds, false).len(),
            |k: int| time_view(absorb(Seq::empty(), 0, cmds, false)[k].time),
        ),
        forall|i: int|
            0 <= i < cmds.len() && (#[trigger] cmds[i]).meta.opcode != Opcode::TIME ==> exists|y: CommandView|
                same_command(y, cmds[i]) && positioned(
                    flatten(absorb(Seq::empty(), 0, cmds, false)),
                    tick_at(0, cmds, i),
                    y,
                ),
        forall|t: i32, x: CommandView|
            #[trigger] positioned(flatten(absorb(Seq::empty(), 0, cmds, false)), t, x) ==> exists|i: int|
                0 <= i < cmds.len() && #[trigger] cmds[i] == x && tick_at(0, cmds, i) == t,
{
    let empty = Seq::<EventView>::empty();
    let evs = absorb(empty, 0, cmds, false);
    lemma_merge_single(cmds);
    lemma_flatten_time_markers(evs);
    assert forall|i: int|
        0 <= i < cmds.len() && (#[trigger] cmds[i]).meta.opcode != Opcode::TIME implies exists|y: CommandView|
        same_command(y, cmds[i]) && positioned(flatten(evs), tick_at(0, cmds, i), y) by {
        let t = tick_at(0, cmds, i);
        assert(has_same(evs, t, cmds[i]));
        let k = choose|k: int| 0 <= k < evs.len() && #[trigger] evs[k].time == t && contains_same(evs[k].commands, cmds[i]);
        let j = choose|j: int| 0 <= j < evs[k].commands.len() && same_command(#[trigger] evs[k].commands[j], cmds[i]);
        let y = evs[k].commands[j];
        assert(present(evs, t, y));
        lemma_flatten_has(evs, t, y);
    }
    assert forall|t: i32, x: CommandView| #[trigger] positioned(flatten(evs), t, x) implies exists|i: int|
        0 <= i < cmds.len() && #[trigger] cmds[i] == x && tick_at(0, cmds, i) == t by {
        lemma_flatten_from(evs, t, x);
        assert(present(evs, t, x));
    }
}

proof fn lemma_slot_is(evs: Seq<EventView>, t: i32, k: int)
    requires
        0 <= k <= evs.len(),
        forall|j: int| 0 <= j < k ==> #[trigger] evs[j].time < t,
        k == evs.len() || evs[k].time >= t,
    ensures
        slot(evs, t) == k,
    decreases k,
{
    if k > 0 {
        let rest = evs.drop_first();
        assert forall|j: int| 0 <= j < k - 1 implies #[trigger] rest[j].time < t by {
            assert(rest[j] == evs[j + 1]);
        }
        lemma_slot_is(rest, t, k - 1);
    }
}

proof fn lemma_slot_basic(evs: Seq<EventView>, t: i32)
    ensures
        0 <= slot(evs, t) <= evs.len(),
        forall|j: int| 0 <= j < slot(evs, t) ==> #[trigger] evs[j].time < t,
        slot(evs, t) < evs.len() ==> evs[slot(evs, t)].time >= t,
    decreases evs.len(),
{
    if evs.len() > 0 && evs[0].time < t {
        let rest = evs.drop_first();
        lemma_slot_basic(rest, t);
        assert forall|j: int| 0 <= j < slot(evs, t) implies #[trigger] evs[j].time < t by {
            if j > 0 {
                assert(evs[j] == rest[j - 1]);
            }
        }
    }
}

proof fn lemma_slot_bounds(evs: Seq<EventView>, t: i32)
    requires
        sorted_times(evs),
    ensures
        0 <= slot(evs, t) <= evs.len(),
        forall|j: int| 0 <= j < slot(evs, t) ==> #[trigger] evs[j].time < t,
        forall|j: int| slot(evs, t) <= j < evs.len() ==> #[trigger] evs[j].time >= t,
    decreases evs.len(),
{
    if evs.len() > 0 {
        let rest = evs.drop_first();
        assert(sorted_times(rest)) by {
            assert forall|i: int, j: int| 0 <= i < j < rest.len() implies #[trigger] rest[i].time
                < #[trigger] rest[j].time by {
                assert(rest[i] == evs[i + 1] && rest[j] == evs[j + 1]);
            }
        }
        lemma_slot_bounds(rest, t);
        if evs[0].time >= t {
            assert forall|j: int| 0 <= j < evs.len() implies #[trigger] evs[j].time >= t by {
                if j > 0 {
                    assert(evs[0].time < evs[j].time);
                }
            }
        } else {
            assert forall|j: int| 0 <= j < slot(evs, t) implies #[trigger] evs[j].time < t by {
                if j > 0 {
                    assert(evs[j] == rest[j - 1]);
                }
            }
            assert forall|j: int| slot(evs, t) <= j < evs.len() implies #[trigger] evs[j].time
                >= t by {
                assert(evs[j] == rest[j - 1]);
            }
        }
    }
}

/// Adding a command keeps the buckets well formed.
pub proof fn lemma_add_wf(evs: Seq<EventView>, t: i32, c: CommandView)
    requires
        events_wf(evs),
        c.meta.opcode != Opcode::TIME,
    ensures
        events_wf(add_to_bucket(evs, t, c)),
{
    lemma_slot_bounds(evs, t);
    let k = slot(evs, t);
    let r = add_to_bucket(evs, t, c);
    if k < evs.len() && evs[k].time == t {
        if !contains_same(evs[k].commands, c) {
            let cmds = evs[k].commands.push(c);
            assert(no_duplicates(cmds)) by {
                assert forall|i: int, j: int| 0 <= i < j < cmds.len() implies !same_command(
                    #[trigger] cmds[i],
                    #[trigger] cmds[j],
                ) by {
                    if j == cmds.len() - 1 {
                        if same_command(cmds[i], cmds[j]) {
                            assert(same_command(evs[k].commands[i], c));
                        }
                    } else {
                        assert(no_duplicates(evs[k].commands));
                        assert(cmds[i] == evs[k].commands[i] && cmds[j] == evs[k].commands[j]);
                    }
                }
            }
            assert forall|i: int| 0 <= i < r.len() implies no_duplicates(#[trigger] r[i].commands) by {
                if i != k {
                    assert(r[i] == evs[i]);
                }
            }
            assert(no_time_markers(cmds)) by {
                assert(no_time_markers(evs[k].commands));
                assert forall|j: int| 0 <= j < cmds.len() implies (#[trigger] cmds[j]).meta.opcode
                    != Opcode::TIME by {
                    if j < evs[k].commands.len() {
                        assert(cmds[j] == evs[k].commands[j]);
                    }
                }
            }
            assert forall|i: int| 0 <= i < r.len() implies no_time_markers(#[trigger] r[i].commands) by {
                if i != k {
                    assert(r[i] == evs[i]);
                }
            }
            assert(sorted_times(r)) by {
                assert forall|i: int, j: int| 0 <= i < j < r.len() implies #[trigger] r[i].time
                    < #[trigger] r[j].time by {
                    assert(r[i].time == evs[i].time && r[j].time == evs[j].time);
                }
            }
        }
    } else {
        let e = EventView { time: t, commands: seq![c] };
        assert(no_duplicates(e.commands));
        assert(no_time_markers(e.commands));
        assert forall|i: int| 0 <= i < r.len() implies no_duplicates(#[trigger] r[i].commands) by {
            if i < k {
                assert(r[i] == evs[i]);
            } else if i > k {
                assert(r[i] == evs[i - 1]);
            }
        }
        assert forall|i: int| 0 <= i < r.len() implies no_time_markers(#[trigger] r[i].commands) by {
            if i < k {
                assert(r[i] == evs[i]);
            } else if i > k {
                assert(r[i] == evs[i - 1]);
            }
        }
        assert(sorted_times(r)) by {
            assert forall|i: int, j: int| 0 <= i < j < r.len() implies #[trigger] r[i].time
                < #[trigger] r[j].time by {
                if j < k {
                    assert(r[i] == evs[i] && r[j] == evs[j]);
                } else if j == k {
                    assert(r[i] == evs[i]);
                } else if i < k {
                    assert(r[i] == evs[i] && r[j] == evs[j - 1]);
                } else if i == k {
                    assert(r[j] == evs[j - 1]);
                    if j - 1 == k {
                        assert(evs[k].time != t);
                    }
                } else {
                    assert(r[i] == evs[i - 1] && r[j] == evs[j - 1]);
                }
            }
        }
    }
}

/// A command already in a bucket stays there when another one is added.
pub proof fn lemma_add_keeps(evs: Seq<EventView>, t: i32, c: CommandView, t2: i32, x: CommandView)
    requires
        present(evs, t2, x),
    ensures
        present(add_to_bucket(evs, t, c), t2, x),
{
    lemma_slot_basic(evs, t);
    let k = slot(evs, t);
    let r = add_to_bucket(evs, t, c);
    let (k2, j2) = choose|k2: int, j2: int|
        0 <= k2 < evs.len() && 0 <= j2 < evs[k2].commands.len() && evs[k2].time == t2
            && #[trigger] evs[k2].commands[j2] == x;
    if k < evs.len() && evs[k].time == t {
        if !contains_same(evs[k].commands, c) {
            assert(r[k2].commands[j2] == x);
        }
    } else {
        if k2 < k {
            assert(r[k2] == evs[k2]);
            assert(r[k2].commands[j2] == x);
        } else {
            assert(r[k2 + 1] == evs[k2]);
            assert(r[k2 + 1].commands[j2] == x);
        }
    }
}

/// After `c` arrives at `t`, the bucket of `t` holds a command the same as `c`.
pub proof fn lemma_add_has(evs: Seq<EventView>, t: i32, c: CommandView)
    ensures
        has_same(add_to_bucket(evs, t, c), t, c),
{
    lemma_slot_basic(evs, t);
    let k = slot(evs, t);
    let r = add_to_bucket(evs, t, c);
    if k < evs.len() && evs[k].time == t {
        if contains_same(evs[k].commands, c) {
            assert(r[k].time == t);
        } else {
            assert(r[k].commands[r[k].commands.len() - 1] == c);
            assert(same_command(c, c));
            assert(r[k].time == t);
        }
    } else {
        assert(r[k].commands[0] == c);
        assert(same_command(c, c));
        assert(r[k].time == t);
    }
}

/// Every command in the buckets after an addition was there before, or is
/// the one added, at its timestamp.
pub proof fn lemma_add_source(evs: Seq<EventView>, t: i32, c: CommandView, t2: i32, x: CommandView)
    requires
        present(add_to_bucket(evs, t, c), t2, x),
    ensures
        present(evs, t2, x) || (t2 == t && x == c),
{
    lemma_slot_basic(evs, t);
    let k = slot(evs, t);
    let r = add_to_bucket(evs, t, c);
    let (k2, j2) = choose|k2: int, j2: int|
        0 <= k2 < r.len() && 0 <= j2 < r[k2].commands.len() && r[k2].time == t2
            && #[trigger] r[k2].commands[j2] == x;
    if k < evs.len() && evs[k].time == t {
        if !contains_same(evs[k].commands, c) {
            if k2 == k && j2 < evs[k].commands.len() {
                assert(evs[k].commands[j2] == x);
            } else if k2 != k {
                assert(evs[k2].commands[j2] == x);
            }
        }
    } else {
        if k2 < k {
            assert(evs[k2].commands[j2] == x);
        } else if k2 > k {
            assert(r[k2] == evs[k2 - 1]);
            assert(evs[k2 - 1].commands[j2] == x);
        }
    }
}

proof fn lemma_has_same_keeps(evs: Seq<EventView>, t: i32, c: CommandView, t2: i32, y: CommandView)
    requires
        has_same(evs, t2, y),
    ensures
        has_same(add_to_bucket(evs, t, c), t2, y),
{
    let k = choose|k: int| 0 <= k < evs.len() && #[trigger] evs[k].time == t2 && contains_same(evs[k].commands, y);
    let j = choose|j: int| 0 <= j < evs[k].commands.len() && same_command(#[trigger] evs[k].commands[j], y);
    let x = evs[k].commands[j];
    assert(present(evs, t2, x));
    lemma_add_keeps(evs, t, c, t2, x);
    let r = add_to_bucket(evs, t, c);
    let (k2, j2) = choose|k2: int, j2: int|
        0 <= k2 < r.len() && 0 <= j2 < r[k2].commands.len() && r[k2].time == t2
            && #[trigger] r[k2].commands[j2] == x;
    assert(same_command(r[k2].commands[j2], y));
    assert(contains_same(r[k2].commands, y));
}

/// Absorbing a timeline keeps the buckets well formed.
pub proof fn lemma_absorb_wf(evs: Seq<EventView>, tick: i32, cmds: Seq<CommandView>, remove: bool)
    requires
        events_wf(evs),
    ensures
        events_wf(absorb(evs, tick, cmds, remove)),
    decreases cmds.len(),
{
    if cmds.len() > 0 {
        let c = cmds[0];
        if remove && is_target(c.meta.opcode) {
            lemma_absorb_wf(evs, tick, cmds.drop_first(), remove);
        } else if c.meta.opcode == Opcode::TIME {
            lemma_absorb_wf(evs, next_tick(tick, c), cmds.drop_first(), remove);
        } else {
            lemma_add_wf(evs, tick, c);
            lemma_absorb_wf(add_to_bucket(evs, tick, c), tick, cmds.drop_first(), remove);
        }
    }
}

proof fn lemma_absorb_keeps_same(
    evs: Seq<EventView>,
    tick: i32,
    cmds: Seq<CommandView>,
    remove: bool,
    t2: i32,
    y: CommandView,
)
    requires
        has_same(evs, t2, y),
    ensures
        has_same(absorb(evs, tick, cmds, remove), t2, y),
    decreases cmds.len(),
{
    if cmds.len() > 0 {
        let c = cmds[0];
        if remove && is_target(c.meta.opcode) {
            lemma_absorb_keeps_same(evs, tick, cmds.drop_first(), remove, t2, y);
        } else if c.meta.opcode == Opcode::TIME {
            lemma_absorb_keeps_same(evs, next_tick(tick, c), cmds.drop_first(), remove, t2, y);
        } else {
            lemma_has_same_keeps(evs, tick, c, t2, y);
            lemma_absorb_keeps_same(add_to_bucket(evs, tick, c), tick, cmds.drop_first(), remove, t2, y);
        }
    }
}

/// Every command of an absorbed timeline that is neither a time marker nor a
/// dropped target command ends up in the bucket of its timestamp, itself or
/// a command the same as it.
pub proof fn lemma_absorb_has(
    evs: Seq<EventView>,
    tick: i32,
    cmds: Seq<CommandView>,
    remove: bool,
    i: int,
)
    requires
        0 <= i < cmds.len(),
        cmds[i].meta.opcode != Opcode::TIME,
        !(remove && is_target(cmds[i].meta.opcode)),
    ensures
        has_same(absorb(evs, tick, cmds, remove), tick_at(tick, cmds, i), cmds[i]),
    decreases cmds.len(),
{
    let c = cmds[0];
    let rest = cmds.drop_first();
    if i == 0 {
        lemma_add_has(evs, tick, c);
        lemma_absorb_keeps_same(add_to_bucket(evs, tick, c), tick, rest, remove, tick, c);
    } else {
        assert(rest[i - 1] == cmds[i]);
        if remove && is_target(c.meta.opcode) {
            lemma_absorb_has(evs, tick, rest, remove, i - 1);
        } else if c.meta.opcode == Opcode::TIME {
            lemma_absorb_has(evs, next_tick(tick, c), rest, remove, i - 1);
        } else {
            lemma_absorb_has(add_to_bucket(evs, tick, c), tick, rest, remove, i - 1);
        }
    }
}

/// Every command in the buckets after a timeline is absorbed was there
/// before, or comes from the timeline at that timestamp and is neither a
/// time marker nor a dropped target command.
pub proof fn lemma_absorb_source(
    evs: Seq<EventView>,
    tick: i32,
    cmds: Seq<CommandView>,
    remove: bool,
    t2: i32,
    x: CommandView,
)
    requires
        present(absorb(evs, tick, cmds, remove), t2, x),
    ensures
        present(evs, t2, x) || exists|i: int|
            0 <= i < cmds.len() && #[trigger] cmds[i] == x && tick_at(tick, cmds, i) == t2
                && x.meta.opcode != Opcode::TIME && !(remove && is_target(x.meta.opcode)),
    decreases cmds.len(),
{
    if cmds.len() > 0 {
        let c = cmds[0];
        let rest = cmds.drop_first();
        let ntick = if remove && is_target(c.meta.opcode) {
            tick
        } else {
            next_tick(tick, c)
        };
        let nevs = if remove && is_target(c.meta.opcode) {
            evs
        } else if c.meta.opcode == Opcode::TIME {
            evs
        } else {
            add_to_bucket(evs, tick, c)
        };
        assert(absorb(evs, tick, cmds, remove) == absorb(nevs, ntick, rest, remove));
        lemma_absorb_source(nevs, ntick, rest, remove, t2, x);
        if present(nevs, t2, x) {
            if nevs != evs {
                lemma_add_source(evs, tick, c, t2, x);
                if !present(evs, t2, x) {
                    assert(cmds[0] == x && tick_at(tick, cmds, 0) == t2);
                }
            }
        } else {
            let i = choose|i: int|
                0 <= i < rest.len() && #[trigger] rest[i] == x && tick_at(ntick, rest, i) == t2
                    && x.meta.opcode != Opcode::TIME && !(remove && is_target(x.meta.opcode));
            assert(cmds[i + 1] == x);
            assert(tick_at(tick, cmds, i + 1) == tick_at(next_tick(tick, c), rest, i));
        }
    }
}

/// Merging one timeline: the buckets ascend by timestamp and hold no
/// command twice; every command of the timeline but the time markers is in
/// the bucket of its timestamp (itself or one the same as it); and the
/// buckets hold nothing else.
pub proof fn lemma_merge_single(cmds: Seq<CommandView>)
    ensures
        events_wf(absorb(Seq::empty(), 0, cmds, false)),
        forall|i: int|
            0 <= i < cmds.len() && (#[trigger] cmds[i]).meta.opcode != Opcode::TIME ==> has_same(
                absorb(Seq::empty(), 0, cmds, false),
                tick_at(0, cmds, i),
                cmds[i],
            ),
        forall|t: i32, x: CommandView|
            #[trigger] present(absorb(Seq::empty(), 0, cmds, false), t, x) ==> exists|i: int|
                0 <= i < cmds.len() && #[trigger] cmds[i] == x && tick_at(0, cmds, i) == t
                    && x.meta.opcode != Opcode::TIME,
{
    let empty = Seq::<EventView>::empty();
    lemma_absorb_wf(empty, 0, cmds, false);
    assert forall|i: int|
        0 <= i < cmds.len() && (#[trigger] cmds[i]).meta.opcode != Opcode::TIME implies has_same(
        absorb(empty, 0, cmds, false),
        tick_at(0, cmds, i),
        cmds[i],
    ) by {
        lemma_absorb_has(empty, 0, cmds, false, i);
    }
    assert forall|t: i32, x: CommandView| #[trigger]
        present(absorb(empty, 0, cmds, false), t, x) implies exists|i: int|
        0 <= i < cmds.len() && #[trigger] cmds[i] == x && tick_at(0, cmds, i) == t
            && x.meta.opcode != Opcode::TIME by {
        lemma_absorb_source(empty, 0, cmds, false, t, x);
    }
}

/// Two commands that are the same, arriving at one timestamp in either
/// order, leave exactly one command the same as them in that bucket (time
/// markers never enter a bucket).
pub proof fn lemma_dedup(evs: Seq<EventView>, t: i32, a: CommandView, b: CommandView)
    requires
        events_wf(evs),
        same_command(a, b),
        a.meta.opcode != Opcode::TIME,
    ensures
        exists|k: int|
            0 <= k < add_to_bucket(add_to_bucket(evs, t, a), t, b).len()
                && #[trigger] add_to_bucket(add_to_bucket(evs, t, a), t, b)[k].time == t
                && exists|j: int|
                0 <= j < add_to_bucket(add_to_bucket(evs, t, a), t, b)[k].commands.len()
                    && same_command(
                    #[trigger] add_to_bucket(add_to_bucket(evs, t, a), t, b)[k].commands[j],
                    a,
                ) && forall|j2: int|
                    0 <= j2 < add_to_bucket(add_to_bucket(evs, t, a), t, b)[k].commands.len()
                        && j2 != j ==> !same_command(
                        #[trigger] add_to_bucket(add_to_bucket(evs, t, a), t, b)[k].commands[j2],
                        a,
                    ),
{
    let e1 = add_to_bucket(evs, t, a);
    let r = add_to_bucket(e1, t, b);
    lemma_add_wf(evs, t, a);
    lemma_add_wf(e1, t, b);
    lemma_add_has(evs, t, a);
    lemma_has_same_keeps(e1, t, b, t, a);
    let k = choose|k: int| 0 <= k < r.len() && #[trigger] r[k].time == t && contains_same(r[k].commands, a);
    let j = choose|j: int| 0 <= j < r[k].commands.len() && same_command(#[trigger] r[k].commands[j], a);
    assert(no_duplicates(r[k].commands));
    assert forall|j2: int| 0 <= j2 < r[k].commands.len() && j2 != j implies !same_command(
        #[trigger] r[k].commands[j2],
        a,
    ) by {
        if same_command(r[k].commands[j2], a) {
            if j2 < j {
                assert(!same_command(r[k].commands[j2], r[k].commands[j]));
            } else {
                assert(!same_command(r[k].commands[j], r[k].commands[j2]));
            }
        }
    }
}

/// With removal set, a fresh merge of a timeline holds no target command,
/// in its buckets or in the flattened result; with it unset, every target
/// command of the timeline is kept at its timestamp.
pub proof fn lemma_remove_targets(cmds: Seq<CommandView>)
    ensures
        forall|t: i32, x: CommandView|
            #[trigger] present(absorb(Seq::empty(), 0, cmds, true), t, x) ==> !is_target(
                x.meta.opcode,
            ),
        forall|t: i32, x: CommandView|
            #[trigger] positioned(flatten(absorb(Seq::empty(), 0, cmds, true)), t, x) ==> !is_target(
                x.meta.opcode,
            ),
        forall|i: int|
            0 <= i < cmds.len() && is_target((#[trigger] cmds[i]).meta.opcode) ==> has_same(
                absorb(Seq::empty(), 0, cmds, false),
                tick_at(0, cmds, i),
                cmds[i],
            ),
{
    let empty = Seq::<EventView>::empty();
    assert forall|t: i32, x: CommandView| #[trigger]
        present(absorb(empty, 0, cmds, true), t, x) implies !is_target(x.meta.opcode) by {
        lemma_absorb_source(empty, 0, cmds, true, t, x);
    }
    lemma_absorb_wf(empty, 0, cmds, true);
    assert forall|t: i32, x: CommandView| #[trigger]
        positioned(flatten(absorb(empty, 0, cmds, true)), t, x) implies !is_target(x.meta.opcode) by {
        lemma_flatten_from(absorb(empty, 0, cmds, true), t, x);
        lemma_absorb_source(empty, 0, cmds, true, t, x);
    }
    assert forall|i: int| 0 <= i < cmds.len() && is_target((#[trigger] cmds[i]).meta.opcode) implies has_same(
        absorb(empty, 0, cmds, false),
        tick_at(0, cmds, i),
        cmds[i],
    ) by {
        lemma_absorb_has(empty, 0, cmds, false, i);
    }
}

/// The buckets after a challenge time is added.
pub open spec fn add_challenge(evs: Seq<EventView>, ct: ChallengeTime) -> Seq<EventView> {
    let kind = mode_select_type(ct.difficulty);
    add_to_bucket(
        add_to_bucket(evs, (ct.start * 100) as i32, mode_select_view(kind, 1)),
        (ct.end * 100) as i32,
        mode_select_view(kind, 3),
    )
}

/// Whether the ticks of a challenge time fit in 32 bits.
pub open spec fn challenge_fits(ct: ChallengeTime) -> bool {
    i32::MIN <= ct.start * 100 <= i32::MAX && i32::MIN <= ct.end * 100 <= i32::MAX
}

/// A challenge time puts `MODE_SELECT(kind, 1)` in the bucket of its start
/// tick and `MODE_SELECT(kind, 3)` in that of its end tick, where the kind is
/// 17 for Easy and 2 for Normal.
pub proof fn lemma_challenge_markers(evs: Seq<EventView>, ct: ChallengeTime)
    requires
        challenge_fits(ct),
    ensures
        has_same(add_challenge(evs, ct), (ct.start * 100) as i32, mode_select_view(mode_select_type(ct.difficulty), 1)),
        has_same(add_challenge(evs, ct), (ct.end * 100) as i32, mode_select_view(mode_select_type(ct.difficulty), 3)),
        ct.difficulty == ChallengeTimeDifficulty::Easy ==> mode_select_type(ct.difficulty) == 17,
        ct.difficulty == ChallengeTimeDifficulty::Normal ==> mode_select_type(ct.difficulty) == 2,
{
    let kind = mode_select_type(ct.difficulty);
    let s = (ct.start * 100) as i32;
    let e1 = add_to_bucket(evs, s, mode_select_view(kind, 1));
    lemma_add_has(evs, s, mode_select_view(kind, 1));
    lemma_has_same_keeps(e1, (ct.end * 100) as i32, mode_select_view(kind, 3), s, mode_select_view(kind, 1));
    lemma_add_has(e1, (ct.end * 100) as i32, mode_select_view(kind, 3));
}

/// After a challenge time is added to well-formed buckets, the flattened
/// result holds a mode-select command with arguments `(kind, 1)` where the
/// start tick is in effect and one with `(kind, 3)` where the end tick is,
/// the kind being 17 for Easy and 2 for Normal.
pub proof fn lemma_challenge_output(evs: Seq<EventView>, ct: ChallengeTime)
    requires
        events_wf(evs),
        challenge_fits(ct),
    ensures
        exists|y: CommandView|
            y.meta.opcode == Opcode::MODE_SELECT && y.args == seq![mode_select_type(ct.difficulty), 1i32]
                && #[trigger] positioned(flatten(add_challenge(evs, ct)), (ct.start * 100) as i32, y),
        exists|y: CommandView|
            y.meta.opcode == Opcode::MODE_SELECT && y.args == seq![mode_select_type(ct.difficulty), 3i32]
                && #[trigger] positioned(flatten(add_challenge(evs, ct)), (ct.end * 100) as i32, y),
{
    let kind = mode_select_type(ct.difficulty);
    let s = (ct.start * 100) as i32;
    let e = (ct.end * 100) as i32;
    let e1 = add_to_bucket(evs, s, mode_select_view(kind, 1));
    let r = add_challenge(evs, ct);
    lemma_add_wf(evs, s, mode_select_view(kind, 1));
    lemma_add_wf(e1, e, mode_select_view(kind, 3));
    lemma_challenge_markers(evs, ct);
    let k1 = choose|k: int| 0 <= k < r.len() && #[trigger] r[k].time == s && contains_same(r[k].commands, mode_select_view(kind, 1));
    let j1 = choose|j: int| 0 <= j < r[k1].commands.len() && same_command(#[trigger] r[k1].commands[j], mode_select_view(kind, 1));
    let y1 = r[k1].commands[j1];
    assert(present(r, s, y1));
    lemma_flatten_has(r, s, y1);
    let k2 = choose|k: int| 0 <= k < r.len() && #[trigger] r[k].time == e && contains_same(r[k].commands, mode_select_view(kind, 3));
    let j2 = choose|j: int| 0 <= j < r[k2].commands.len() && same_command(#[trigger] r[k2].commands[j], mode_select_view(kind, 3));
    let y2 = r[k2].commands[j2];
    assert(present(r, e, y2));
    lemma_flatten_has(r, e, y2);
}

/// The commands of a timeline without its target commands.
pub open spec fn without_targets(cmds: Seq<CommandView>) -> Seq<CommandView>
    decreases cmds.len(),
{
    if cmds.len() == 0 {
        cmds
    } else if is_target(cmds[0].meta.opcode) {
        without_targets(cmds.drop_first())
    } else {
        seq![cmds[0]] + without_targets(cmds.drop_first())
    }
}

/// Absorbing a timeline with removal set, into any buckets, is absorbing it
/// without its target commands and with removal unset: the target commands
/// are dropped and everything else is added exactly as before.
pub proof fn lemma_remove_targets_general(evs: Seq<EventView>, tick: i32, cmds: Seq<CommandView>)
    ensures
        absorb(evs, tick, cmds, true) == absorb(evs, tick, without_targets(cmds), false),
    decreases cmds.len(),
{
    if cmds.len() > 0 {
        let c = cmds[0];
        let rest = cmds.drop_first();
        if is_target(c.meta.opcode) {
            lemma_remove_targets_general(evs, tick, rest);
        } else {
            let w = seq![c] + without_targets(rest);
            assert(w[0] == c);
            assert(w.drop_first() =~= without_targets(rest));
            if c.meta.opcode == Opcode::TIME {
                lemma_remove_targets_general(evs, next_tick(tick, c), rest);
            } else {
                lemma_remove_targets_general(add_to_bucket(evs, tick, c), tick, rest);
            }
        }
    }
}

/// In well-formed buckets, a command that has arrived at a timestamp (by
/// any route, in any order with commands the same as it) stands there
/// exactly once: the bucket holds one command the same as it, and no other.
pub proof fn lemma_unique_in_bucket(evs: Seq<EventView>, t: i32, a: CommandView)
    requires
        events_wf(evs),
        has_same(evs, t, a),
    ensures
        exists|k: int|
            0 <= k < evs.len() && #[trigger] evs[k].time == t && exists|j: int|
                0 <= j < evs[k].commands.len() && same_command(#[trigger] evs[k].commands[j], a)
                    && forall|j2: int|
                    0 <= j2 < evs[k].commands.len() && j2 != j ==> !same_command(
                        #[trigger] evs[k].commands[j2],
                        a,
                    ),
        forall|k: int| 0 <= k < evs.len() && #[trigger] evs[k].time == t ==> contains_same(evs[k].commands, a),
{
    let k = choose|k: int| 0 <= k < evs.len() && #[trigger] evs[k].time == t && contains_same(evs[k].commands, a);
    let j = choose|j: int| 0 <= j < evs[k].commands.len() && same_command(#[trigger] evs[k].commands[j], a);
    assert(no_duplicates(evs[k].commands));
    assert forall|j2: int| 0 <= j2 < evs[k].commands.len() && j2 != j implies !same_command(
        #[trigger] evs[k].commands[j2],
        a,
    ) by {
        if same_command(evs[k].commands[j2], a) {
            if j2 < j {
                assert(!same_command(evs[k].commands[j2], evs[k].commands[j]));
            } else {
                assert(!same_command(evs[k].commands[j], evs[k].commands[j2]));
            }
        }
    }
    assert forall|k2: int| 0 <= k2 < evs.len() && #[trigger] evs[k2].time == t implies contains_same(
        evs[k2].commands,
        a,
    ) by {
        if k2 != k {
            if k2 < k {
                assert(evs[k2].time < evs[k].time);
            } else {
                assert(evs[k].time < evs[k2].time);
            }
        }
    }
}

/// The commands of the bucket of `t`, or none when `t` has no bucket.
pub open spec fn bucket_of(evs: Seq<EventView>, t: i32) -> Seq<CommandView> {
    let k = slot(evs, t);
    if 0 <= k < evs.len() && evs[k].time == t {
        evs[k].commands
    } else {
        Seq::empty()
    }
}

/// `b` with `c` appended, unless `b` already holds a command the same as `c`.
pub open spec fn add_if_new(b: Seq<CommandView>, c: CommandView) -> Seq<CommandView> {
    if contains_same(b, c) {
        b
    } else {
        b.push(c)
    }
}

/// `b` after each command of `s` is added to it in order, the first of
/// commands that are the same being kept.
pub open spec fn dedup_extend(b: Seq<CommandView>, s: Seq<CommandView>) -> Seq<CommandView>
    decreases s.len(),
{
    if s.len() == 0 {
        b
    } else {
        dedup_extend(add_if_new(b, s[0]), s.drop_first())
    }
}

/// The commands of `cmds`, starting from timestamp `tick`, that are no time
/// markers and stand where the timestamp in effect is `t`, in order.
pub open spec fn arrivals(tick: i32, cmds: Seq<CommandView>, t: i32) -> Seq<CommandView>
    decreases cmds.len(),
{
    if cmds.len() == 0 {
        Seq::empty()
    } else {
        let c = cmds[0];
        let here = if c.meta.opcode != Opcode::TIME && tick == t {
            seq![c]
        } else {
            Seq::empty()
        };
        here + arrivals(next_tick(tick, c), cmds.drop_first(), t)
    }
}

proof fn lemma_bucket_of_add(evs: Seq<EventView>, t0: i32, c: CommandView, t: i32)
    requires
        sorted_times(evs),
    ensures
        bucket_of(add_to_bucket(evs, t0, c), t) == if t == t0 {
            add_if_new(bucket_of(evs, t), c)
        } else {
            bucket_of(evs, t)
        },
{
    lemma_slot_bounds(evs, t0);
    lemma_slot_bounds(evs, t);
    let k = slot(evs, t0);
    let kt = slot(evs, t);
    let r = add_to_bucket(evs, t0, c);
    if k < evs.len() && evs[k].time == t0 {
        assert(r.len() == evs.len());
        assert(forall|j: int| 0 <= j < r.len() ==> #[trigger] r[j].time == evs[j].time);
        lemma_slot_is(r, t, kt);
        if t == t0 {
            assert(kt == k) by {
                lemma_slot_is(evs, t0, kt);
            }
        }
    } else {
        let e = EventView { time: t0, commands: seq![c] };
        assert(r == evs.insert(k, e));
        if t == t0 {
            lemma_slot_is(r, t, k);
            assert(bucket_of(evs, t) =~= Seq::<CommandView>::empty());
            assert(!contains_same(Seq::<CommandView>::empty(), c));
            assert(Seq::<CommandView>::empty().push(c) =~= seq![c]);
        } else if t < t0 {
            assert(kt <= k) by {
                if kt > k && k < evs.len() {
                    assert(evs[k].time < t);
                }
            }
            assert forall|j: int| 0 <= j < kt implies #[trigger] r[j].time < t by {
                assert(r[j] == evs[j]);
            }
            lemma_slot_is(r, t, kt);
            if kt < k {
                assert(r[kt] == evs[kt]);
            }
        } else {
            assert(kt >= k) by {
                if kt < k {
                    assert(evs[kt].time < t0);
                }
            }
            assert forall|j: int| 0 <= j < kt + 1 implies #[trigger] r[j].time < t by {
                if j < k {
                    assert(r[j] == evs[j]);
                } else if j > k {
                    assert(r[j] == evs[j - 1]);
                }
            }
            if kt < evs.len() {
                assert(r[kt + 1] == evs[kt]);
            }
            lemma_slot_is(r, t, kt + 1);
        }
    }
}

/// Absorbing a timeline (removal unset) extends the bucket of every
/// timestamp by the timeline's commands at that timestamp, in their order,
/// each added unless a command the same as it is already there.
pub proof fn lemma_absorb_buckets(evs: Seq<EventView>, tick: i32, cmds: Seq<CommandView>, t: i32)
    requires
        events_wf(evs),
    ensures
        bucket_of(absorb(evs, tick, cmds, false), t) == dedup_extend(bucket_of(evs, t), arrivals(tick, cmds, t)),
    decreases cmds.len(),
{
    if cmds.len() == 0 {
    } else {
        let c = cmds[0];
        let rest = cmds.drop_first();
        let ar = arrivals(next_tick(tick, c), rest, t);
        if c.meta.opcode == Opcode::TIME {
            assert(arrivals(tick, cmds, t) =~= ar);
            lemma_absorb_buckets(evs, next_tick(tick, c), rest, t);
        } else {
            lemma_add_wf(evs, tick, c);
            lemma_absorb_buckets(add_to_bucket(evs, tick, c), tick, rest, t);
            lemma_bucket_of_add(evs, tick, c, t);
            if tick == t {
                let s = arrivals(tick, cmds, t);
                assert(s =~= seq![c] + ar);
                assert(s[0] == c);
                assert(s.drop_first() =~= ar);
            } else {
                assert(arrivals(tick, cmds, t) =~= ar);
            }
        }
    }
}

/// Merging one timeline (removal unset): the bucket of every timestamp holds
/// exactly the timeline's commands at that timestamp, in the timeline's
/// order, the first of commands that are the same being kept; a timestamp
/// without such commands has no bucket.
pub proof fn lemma_merge_single_buckets(cmds: Seq<CommandView>, t: i32)
    ensures
        bucket_of(absorb(Seq::empty(), 0, cmds, false), t) == dedup_extend(Seq::empty(), arrivals(0, cmds, t)),
{
    let empty = Seq::<EventView>::empty();
    assert(bucket_of(empty, t) =~= Seq::<CommandView>::empty());
    lemma_absorb_buckets(empty, 0, cmds, t);
}

/// Whether `op` is one of the target opcodes.
fn is_target_opcode(op: Opcode) -> (r: bool)
    ensures
        r == is_target(op),
{
    op == Opcode::TARGET || op == Opcode::TARGET_FLYING_TIME || op == Opcode::TARGET_EFFECT
        || op == Opcode::TARGET_FLAG || op == Opcode::EDIT_TARGET
}

/// The merge engine: buckets of commands keyed by timestamp, filled from any
/// number of timelines and flattened into one.
pub struct DSCMerger {
    events: Vec<Event>,
}

impl View for DSCMerger {
    type V = Seq<EventView>;

    closed spec fn view(&self) -> Seq<EventView> {
        self.events@.map_values(|e: Event| e@)
    }
}

impl DSCMerger {
    /// Whether the buckets are well formed.
    pub open spec fn wf(&self) -> bool {
        events_wf(self@)
    }

    pub fn new() -> (r: Self)
        ensures
            r@ == Seq::<EventView>::empty(),
            r.wf(),
    {
        let r = DSCMerger { events: Vec::new() };
        assert(r@ =~= Seq::<EventView>::empty());
        r
    }

    fn add_command(&mut self, timestamp: i32, command: Command)
        requires
            old(self).wf(),
            command.meta.opcode != Opcode::TIME,
        ensures
            final(self)@ == add_to_bucket(old(self)@, timestamp, command@),
            final(self).wf(),
    {
        let ghost evs = self@;
        let mut k: usize = 0;
        while k < self.events.len() && self.events[k].time < timestamp
            invariant
                k <= self.events.len(),
                self@ == evs,
                forall|j: int| 0 <= j < k ==> #[trigger] evs[j].time < timestamp,
            decreases self.events.len() - k,
        {
            assert(evs[k as int] == self.events@[k as int]@);
            k = k + 1;
        }
        proof {
            if k < self.events.len() {
                assert(evs[k as int] == self.events@[k as int]@);
            }
            lemma_slot_is(evs, timestamp, k as int);
            lemma_add_wf(evs, timestamp, command@);
        }
        if k < self.events.len() && self.events[k].time == timestamp {
            let mut found = false;
            let mut j: usize = 0;
            let n = self.events[k].commands.len();
            while j < n && !found
                invariant
                    k < self.events.len(),
                    n == self.events@[k as int].commands.len(),
                    j <= n,
                    self@ == evs,
                    found ==> contains_same(evs[k as int].commands, command@),
                    !found ==> forall|i: int| 0 <= i < j ==> !same_command(
                        #[trigger] evs[k as int].commands[i],
                        command@,
                    ),
                decreases n - j + (if found { 0int } else { 1int }),
            {
                assert(evs[k as int].commands[j as int] == self.events@[k as int].commands@[j as int]@);
                if self.events[k].commands[j] == command {
                    found = true;
                } else {
                    j = j + 1;
                }
            }
            if !found {
                let mut event = self.events.remove(k);
                let ghost before = event.commands@;
                event.commands.push(command);
                assert(commands_view(event.commands@) =~= commands_view(before).push(command@));
                self.events.insert(k, event);
                assert(self@ =~= add_to_bucket(evs, timestamp, command@));
            }
        } else {
            let mut commands: Vec<Command> = Vec::new();
            commands.push(command);
            assert(commands_view(commands@) =~= seq![command@]);
            self.events.insert(k, Event::new(timestamp, commands));
            assert(self@ =~= add_to_bucket(evs, timestamp, command@));
        }
    }

    /// Absorbs a timeline: time markers move the current timestamp (0 at
    /// first), target commands are dropped when the timeline asks for it,
    /// and every other command goes to the bucket of the current timestamp.
    pub fn add_dsc(&mut self, dsc_vm: DSCVM)
        requires
            old(self).wf(),
        ensures
            final(self)@ == absorb(old(self)@, 0, dsc_vm.commands(), dsc_vm.remove_targets),
            final(self).wf(),
    {
        let ghost cmds = dsc_vm.commands();
        let ghost target = absorb(self@, 0, cmds, dsc_vm.remove_targets);
        let mut current_ts: i32 = 0;
        let mut i: usize = 0;
        assert(cmds.skip(0) =~= cmds);
        while i < dsc_vm.command_buffer.len()
            invariant
                i <= dsc_vm.command_buffer.len(),
                cmds == dsc_vm.commands(),
                self.wf(),
                target == absorb(self@, current_ts, cmds.skip(i as int), dsc_vm.remove_targets),
            decreases dsc_vm.command_buffer.len() - i,
        {
            let command = &dsc_vm.command_buffer[i];
            let ghost rest = cmds.skip(i as int);
            assert(rest[0] == command@);
            assert(rest.drop_first() =~= cmds.skip(i + 1));
            if dsc_vm.remove_targets && is_target_opcode(command.meta.opcode) {
            } else if command.meta.opcode == Opcode::TIME {
                if command.args.len() > 0 {
                    current_ts = command.args[0];
                }
            } else {
                self.add_command(current_ts, command.duplicate());
            }
            i = i + 1;
        }
        assert(cmds.skip(i as int) =~= Seq::<CommandView>::empty());
    }

    /// Adds the two mode-select markers of a challenge time, at its start
    /// and end ticks (milliseconds times 100).
    pub fn add_challenge_time(&mut self, challenge_time: ChallengeTime)
        requires
            old(self).wf(),
            challenge_fits(challenge_time),
        ensures
            final(self)@ == add_challenge(old(self)@, challenge_time),
            final(self).wf(),
    {
        let start_time = challenge_time.start * 100;
        let end_time = challenge_time.end * 100;
        let mode_select_type: i32 = match challenge_time.difficulty {
            ChallengeTimeDifficulty::Easy => 17,
            ChallengeTimeDifficulty::Normal => 2,
        };
        let mut start_args: Vec<i32> = Vec::new();
        start_args.push(mode_select_type);
        start_args.push(1);
        let mut end_args: Vec<i32> = Vec::new();
        end_args.push(mode_select_type);
        end_args.push(3);
        assert(start_args@ =~= seq![mode_select_type, 1]);
        assert(end_args@ =~= seq![mode_select_type, 3]);
        let start_command = Command::new(OpcodeMeta::new(26, Opcode::MODE_SELECT, 2), start_args);
        let end_command = Command::new(OpcodeMeta::new(26, Opcode::MODE_SELECT, 2), end_args);
        self.add_command(start_time, start_command);
        self.add_command(end_time, end_command);
    }

    /// A copy of the buckets, in ascending order of timestamp.
    fn create_event_vector(&self) -> (r: Vec<Event>)
        ensures
            r@.map_values(|e: Event| e@) == self@,
    {
        let mut events: Vec<Event> = Vec::new();
        let mut i: usize = 0;
        while i < self.events.len()
            invariant
                i <= self.events.len(),
                events@.map_values(|e: Event| e@) =~= self@.subrange(0, i as int),
            decreases self.events.len() - i,
        {
            let source = &self.events[i];
            let mut commands: Vec<Command> = Vec::new();
            let mut j: usize = 0;
            while j < source.commands.len()
                invariant
                    j <= source.commands.len(),
                    commands_view(commands@) =~= commands_view(source.commands@).subrange(0, j as int),
                decreases source.commands.len() - j,
            {
                let copy = source.commands[j].duplicate();
                let ghost prev = commands@;
                commands.push(copy);
                assert(commands_view(commands@) =~= commands_view(prev).push(copy@));
                j = j + 1;
            }
            assert(commands_view(commands@) =~= commands_view(source.commands@));
            let ghost prev = events@;
            let event = Event::new(source.time, commands);
            assert(event@ == self@[i as int]);
            events.push(event);
            assert(events@.map_values(|e: Event| e@) =~= prev.map_values(|e: Event| e@).push(event@));
            i = i + 1;
        }
        events
    }

    /// Flattens the buckets into one timeline: for each timestamp in
    /// ascending order, a time marker and then the bucket's commands.
    pub fn to_dsc(&mut self) -> (r: DSCVM)
        ensures
            final(self)@ == old(self)@,
            r.commands() == flatten(old(self)@),
            !r.remove_targets,
    {
        let events = self.create_event_vector();
        let ghost evs = self@;
        let mut dsc_vm = DSCVM::new(false);
        let mut i: usize = 0;
        while i < events.len()
            invariant
                i <= events.len(),
                events@.map_values(|e: Event| e@) == evs,
                dsc_vm.commands() == flatten(evs.subrange(0, i as int)),
                !dsc_vm.remove_targets,
            decreases events.len() - i,
        {
            let event = &events[i];
            let ghost before = dsc_vm.commands();
            dsc_vm.add_command(get_time_command(event.time));
            let mut j: usize = 0;
            while j < event.commands.len()
                invariant
                    j <= event.commands.len(),
                    dsc_vm.commands() == before + seq![time_view(event.time)] + commands_view(
                        event.commands@,
                    ).subrange(0, j as int),
                    !dsc_vm.remove_targets,
                decreases event.commands.len() - j,
            {
                dsc_vm.add_command(event.commands[j].duplicate());
                assert(commands_view(event.commands@).subrange(0, j + 1) =~= commands_view(
                    event.commands@,
                ).subrange(0, j as int).push(event.commands@[j as int]@));
                j = j + 1;
            }
            assert(commands_view(event.commands@).subrange(0, j as int) =~= commands_view(event.commands@));
            let ghost pre = evs.subrange(0, i + 1);
            assert(pre.drop_last() =~= evs.subrange(0, i as int));
            assert(pre.last() == event@);
            i = i + 1;
        }
        assert(evs.subrange(0, i as int) =~= evs);
        dsc_vm
    }
}

} // verus!
