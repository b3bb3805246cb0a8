//! Orders given while shift is held wait until shift is released. These are
//! the waiting orders, with positions of the caller's type `P`, and the
//! checks that run on them when they are sent.

use vstd::prelude::*;

use crate::original::objects::ObjectKind;
use crate::selection::activation::{
    source_filter_activation_refs, spec_filter_activation_refs, SourceCommandActivationAccess,
};
use crate::selection::{attack_command_no_way, refs_contain, spec_attack_command_no_way, MouseCommandObjectSnapshot};

verus! {

/// A vehicle or cannon that robots are sent into.
#[derive(Clone, Copy, Debug, PartialEq)]
pub struct EnterTargetInfo<P> {
    pub ref_id: u32,
    pub position: P,
    pub waypoint: P,
}

/// A fort that robots are sent into.
#[derive(Clone, Copy, Debug, PartialEq)]
pub struct EnterFortTargetInfo<P> {
    pub ref_id: u32,
    pub position: P,
    pub inside_point: P,
    pub exit_point: P,
}

/// A repair building that units are sent to.
#[derive(Clone, Copy, Debug, PartialEq)]
pub struct UnitRepairTargetInfo<P> {
    pub ref_id: u32,
    pub entrance_point: P,
    pub center_point: P,
}

/// A building or bridge that cranes are sent to repair.
#[derive(Clone, Copy, Debug, PartialEq)]
pub struct CraneRepairTargetInfo<P> {
    pub ref_id: u32,
    pub entrance_point: P,
    pub center_point: P,
}

/// A waiting move order.
#[derive(Clone, Debug)]
pub struct PendingMouseMoveCommand<P> {
    pub world_pos: P,
    pub selected_refs: Vec<u32>,
    pub ctrl_down: bool,
    pub alt_down: bool,
}

/// A waiting attack order.
#[derive(Clone, Debug)]
pub struct PendingMouseAttackCommand<P> {
    pub world_pos: P,
    pub selected_refs: Vec<u32>,
    pub target_ref_id: u32,
}

/// A waiting order to pick up grenades, carried out by `robot_refs`.
#[derive(Clone, Debug)]
pub struct PendingMousePickupGrenadesCommand<P> {
    pub world_pos: P,
    pub selected_refs: Vec<u32>,
    pub robot_refs: Vec<u32>,
    pub target_ref_id: u32,
    pub target_position: P,
}

/// A waiting order to have `unit_refs` repaired.
#[derive(Clone, Debug)]
pub struct PendingMouseUnitRepairCommand<P> {
    pub world_pos: P,
    pub selected_refs: Vec<u32>,
    pub unit_refs: Vec<u32>,
    pub target: UnitRepairTargetInfo<P>,
}

/// A waiting order for `crane_refs` to repair a building.
#[derive(Clone, Debug)]
pub struct PendingMouseCraneRepairCommand<P> {
    pub world_pos: P,
    pub selected_refs: Vec<u32>,
    pub crane_refs: Vec<u32>,
    pub target: CraneRepairTargetInfo<P>,
}

/// A waiting order for `robot_refs` to enter a vehicle or cannon.
#[derive(Clone, Debug)]
pub struct PendingMouseEnterCommand<P> {
    pub world_pos: P,
    pub selected_refs: Vec<u32>,
    pub robot_refs: Vec<u32>,
    pub target: EnterTargetInfo<P>,
}

/// A waiting order for `robot_refs` to enter a fort.
#[derive(Clone, Debug)]
pub struct PendingMouseEnterFortCommand<P> {
    pub world_pos: P,
    pub selected_refs: Vec<u32>,
    pub robot_refs: Vec<u32>,
    pub target: EnterFortTargetInfo<P>,
}

/// A waiting order.
#[derive(Clone, Debug)]
pub enum PendingMouseCommand<P> {
    Move(PendingMouseMoveCommand<P>),
    Attack(PendingMouseAttackCommand<P>),
    PickupGrenades(PendingMousePickupGrenadesCommand<P>),
    UnitRepair(PendingMouseUnitRepairCommand<P>),
    CraneRepair(PendingMouseCraneRepairCommand<P>),
    Enter(PendingMouseEnterCommand<P>),
    EnterFort(PendingMouseEnterFortCommand<P>),
}

/// The selection an order was given to.
pub open spec fn spec_pending_selected_refs<P>(command: PendingMouseCommand<P>) -> Seq<u32> {
    match command {
        PendingMouseCommand::Move(c) => c.selected_refs@,
        PendingMouseCommand::Attack(c) => c.selected_refs@,
        PendingMouseCommand::PickupGrenades(c) => c.selected_refs@,
        PendingMouseCommand::UnitRepair(c) => c.selected_refs@,
        PendingMouseCommand::CraneRepair(c) => c.selected_refs@,
        PendingMouseCommand::Enter(c) => c.selected_refs@,
        PendingMouseCommand::EnterFort(c) => c.selected_refs@,
    }
}

/// The selection an order was given to (not the units that carry it out).
pub fn pending_command_selected_refs<P>(command: &PendingMouseCommand<P>) -> (r: &[u32])
    ensures
        r@ == spec_pending_selected_refs(*command),
{
    match command {
        PendingMouseCommand::Move(c) => c.selected_refs.as_slice(),
        PendingMouseCommand::Attack(c) => c.selected_refs.as_slice(),
        PendingMouseCommand::PickupGrenades(c) => c.selected_refs.as_slice(),
        PendingMouseCommand::UnitRepair(c) => c.selected_refs.as_slice(),
        PendingMouseCommand::CraneRepair(c) => c.selected_refs.as_slice(),
        PendingMouseCommand::Enter(c) => c.selected_refs.as_slice(),
        PendingMouseCommand::EnterFort(c) => c.selected_refs.as_slice(),
    }
}

/// The objects on the map as (ref, kind) pairs.
pub open spec fn spec_snapshot_kinds(snapshots: Seq<MouseCommandObjectSnapshot>) -> Seq<(u32, ObjectKind)> {
    snapshots.map_values(|s: MouseCommandObjectSnapshot| (s.ref_id, s.kind))
}

/// Whether a waiting order is a hopeless attack: only attack orders can be.
pub open spec fn spec_pending_attack_no_way<P>(
    command: PendingMouseCommand<P>,
    snapshots: Seq<MouseCommandObjectSnapshot>,
) -> bool {
    match command {
        PendingMouseCommand::Attack(c) => spec_attack_command_no_way(
            c.selected_refs@,
            c.target_ref_id,
            spec_snapshot_kinds(snapshots),
        ),
        _ => false,
    }
}

/// The objects on the map as (ref, kind) pairs.
fn snapshot_kinds(snapshots: &[MouseCommandObjectSnapshot]) -> (r: Vec<(u32, ObjectKind)>)
    ensures
        r@ == spec_snapshot_kinds(snapshots@),
{
    let mut kinds: Vec<(u32, ObjectKind)> = Vec::new();
    let mut i: usize = 0;
    while i < snapshots.len()
        invariant
            i <= snapshots@.len(),
            kinds@ == spec_snapshot_kinds(snapshots@.take(i as int)),
        decreases snapshots@.len() - i,
    {
        let s = snapshots[i];
        kinds.push((s.ref_id, s.kind));
        proof {
            assert(snapshots@.take(i + 1) =~= snapshots@.take(i as int).push(snapshots@[i as int]));
            assert(spec_snapshot_kinds(snapshots@.take(i + 1)) =~= spec_snapshot_kinds(snapshots@.take(i as int)).push(
                (s.ref_id, s.kind),
            ));
        }
        i = i + 1;
    }
    proof {
        assert(snapshots@.take(i as int) =~= snapshots@);
    }
    kinds
}

/// Whether a waiting order is an attack that its lone attacker would lose.
pub fn pending_attack_no_way<P>(command: &PendingMouseCommand<P>, object_snapshots: &[MouseCommandObjectSnapshot]) -> (r:
    bool)
    ensures
        r == spec_pending_attack_no_way(*command, object_snapshots@),
{
    match command {
        PendingMouseCommand::Attack(c) => {
            let kinds = snapshot_kinds(object_snapshots);
            attack_command_no_way(c.selected_refs.as_slice(), c.target_ref_id, kinds.as_slice())
        },
        _ => false,
    }
}

/// The selections of the orders, one after another.
pub open spec fn spec_flat_selected_refs<P>(commands: Seq<PendingMouseCommand<P>>) -> Seq<u32>
    decreases commands.len(),
{
    if commands.len() == 0 {
        Seq::empty()
    } else {
        spec_flat_selected_refs(commands.drop_last()) + spec_pending_selected_refs(commands.last())
    }
}

/// `refs` with each ref kept at its first place only.
pub open spec fn spec_distinct_refs(refs: Seq<u32>) -> Seq<u32>
    decreases refs.len(),
{
    if refs.len() == 0 {
        Seq::empty()
    } else {
        let rest = spec_distinct_refs(refs.drop_last());
        if rest.contains(refs.last()) {
            rest
        } else {
            rest.push(refs.last())
        }
    }
}

/// The refs of `refs` that `keep` holds, in order.
pub open spec fn spec_retain_refs(refs: Seq<u32>, keep: Seq<u32>) -> Seq<u32>
    decreases refs.len(),
{
    if refs.len() == 0 {
        Seq::empty()
    } else {
        let rest = spec_retain_refs(refs.drop_last(), keep);
        if keep.contains(refs.last()) {
            rest.push(refs.last())
        } else {
            rest
        }
    }
}

/// `new` is the order `old` with both of its ref lists cut down to `keep`,
/// and all else as it was.
pub open spec fn spec_command_filtered<P>(
    old: PendingMouseCommand<P>,
    new: PendingMouseCommand<P>,
    keep: Seq<u32>,
) -> bool {
    match (old, new) {
        (PendingMouseCommand::Move(a), PendingMouseCommand::Move(b)) => {
            &&& b.world_pos == a.world_pos
            &&& b.selected_refs@ == spec_retain_refs(a.selected_refs@, keep)
            &&& b.ctrl_down == a.ctrl_down
            &&& b.alt_down == a.alt_down
        },
        (PendingMouseCommand::Attack(a), PendingMouseCommand::Attack(b)) => {
            &&& b.world_pos == a.world_pos
            &&& b.selected_refs@ == spec_retain_refs(a.selected_refs@, keep)
            &&& b.target_ref_id == a.target_ref_id
        },
        (PendingMouseCommand::PickupGrenades(a), PendingMouseCommand::PickupGrenades(b)) => {
            &&& b.world_pos == a.world_pos
            &&& b.selected_refs@ == spec_retain_refs(a.selected_refs@, keep)
            &&& b.robot_refs@ == spec_retain_refs(a.robot_refs@, keep)
            &&& b.target_ref_id == a.target_ref_id
            &&& b.target_position == a.target_position
        },
        (PendingMouseCommand::UnitRepair(a), PendingMouseCommand::UnitRepair(b)) => {
            &&& b.world_pos == a.world_pos
            &&& b.selected_refs@ == spec_retain_refs(a.selected_refs@, keep)
            &&& b.unit_refs@ == spec_retain_refs(a.unit_refs@, keep)
            &&& b.target == a.target
        },
        (PendingMouseCommand::CraneRepair(a), PendingMouseCommand::CraneRepair(b)) => {
            &&& b.world_pos == a.world_pos
            &&& b.selected_refs@ == spec_retain_refs(a.selected_refs@, keep)
            &&& b.crane_refs@ == spec_retain_refs(a.crane_refs@, keep)
            &&& b.target == a.target
        },
        (PendingMouseCommand::Enter(a), PendingMouseCommand::Enter(b)) => {
            &&& b.world_pos == a.world_pos
            &&& b.selected_refs@ == spec_retain_refs(a.selected_refs@, keep)
            &&& b.robot_refs@ == spec_retain_refs(a.robot_refs@, keep)
            &&& b.target == a.target
        },
        (PendingMouseCommand::EnterFort(a), PendingMouseCommand::EnterFort(b)) => {
            &&& b.world_pos == a.world_pos
            &&& b.selected_refs@ == spec_retain_refs(a.selected_refs@, keep)
            &&& b.robot_refs@ == spec_retain_refs(a.robot_refs@, keep)
            &&& b.target == a.target
        },
        _ => false,
    }
}

/// The refs of `refs` that `keep` holds, in order.
fn retain_refs(refs: &Vec<u32>, keep: &Vec<u32>) -> (r: Vec<u32>)
    ensures
        r@ == spec_retain_refs(refs@, keep@),
{
    let mut kept: Vec<u32> = Vec::new();
    let mut i: usize = 0;
    while i < refs.len()
        invariant
            i <= refs@.len(),
            kept@ == spec_retain_refs(refs@.take(i as int), keep@),
        decreases refs@.len() - i,
    {
        proof {
            assert(refs@.take(i + 1).drop_last() =~= refs@.take(i as int));
        }
        if refs_contain(keep.as_slice(), refs[i]) {
            kept.push(refs[i]);
        }
        i = i + 1;
    }
    proof {
        assert(refs@.take(i as int) =~= refs@);
    }
    kept
}

/// The distinct refs of all the orders' selections, each at its first place.
fn attempted_refs<P>(pending: &Vec<PendingMouseCommand<P>>) -> (r: Vec<u32>)
    ensures
        r@ == spec_distinct_refs(spec_flat_selected_refs(pending@)),
{
    let mut attempted: Vec<u32> = Vec::new();
    let mut i: usize = 0;
    while i < pending.len()
        invariant
            i <= pending@.len(),
            attempted@ == spec_distinct_refs(spec_flat_selected_refs(pending@.take(i as int))),
        decreases pending@.len() - i,
    {
        let refs = pending_command_selected_refs(&pending[i]);
        let ghost before = spec_flat_selected_refs(pending@.take(i as int));
        proof {
            assert(pending@.take(i + 1).drop_last() =~= pending@.take(i as int));
            assert(spec_flat_selected_refs(pending@.take(i + 1)) == before + refs@);
        }
        let mut j: usize = 0;
        while j < refs.len()
            invariant
                i < pending@.len(),
                j <= refs@.len(),
                refs@ == spec_pending_selected_refs(pending@[i as int]),
                attempted@ == spec_distinct_refs(before + refs@.take(j as int)),
            decreases refs@.len() - j,
        {
            proof {
                assert((before + refs@.take(j + 1)).drop_last() =~= before + refs@.take(j as int));
                assert((before + refs@.take(j + 1)).last() == refs@[j as int]);
            }
            if !refs_contain(attempted.as_slice(), refs[j]) {
                attempted.push(refs[j]);
            }
            j = j + 1;
        }
        proof {
            assert(refs@.take(j as int) =~= refs@);
        }
        i = i + 1;
    }
    proof {
        assert(pending@.take(i as int) =~= pending@);
    }
    attempted
}

/// The order `command` with both of its ref lists cut down to `keep`.
fn filter_command<P: Copy>(command: &PendingMouseCommand<P>, keep: &Vec<u32>) -> (r: PendingMouseCommand<P>)
    ensures
        spec_command_filtered(*command, r, keep@),
{
    match command {
        PendingMouseCommand::Move(c) => PendingMouseCommand::Move(
            PendingMouseMoveCommand {
                world_pos: c.world_pos,
                selected_refs: retain_refs(&c.selected_refs, keep),
                ctrl_down: c.ctrl_down,
                alt_down: c.alt_down,
            },
        ),
        PendingMouseCommand::Attack(c) => PendingMouseCommand::Attack(
            PendingMouseAttackCommand {
                world_pos: c.world_pos,
                selected_refs: retain_refs(&c.selected_refs, keep),
                target_ref_id: c.target_ref_id,
            },
        ),
        PendingMouseCommand::PickupGrenades(c) => PendingMouseCommand::PickupGrenades(
            PendingMousePickupGrenadesCommand {
                world_pos: c.world_pos,
                selected_refs: retain_refs(&c.selected_refs, keep),
                robot_refs: retain_refs(&c.robot_refs, keep),
                target_ref_id: c.target_ref_id,
                target_position: c.target_position,
            },
        ),
        PendingMouseCommand::UnitRepair(c) => PendingMouseCommand::UnitRepair(
            PendingMouseUnitRepairCommand {
                world_pos: c.world_pos,
                selected_refs: retain_refs(&c.selected_refs, keep),
                unit_refs: retain_refs(&c.unit_refs, keep),
                target: c.target,
            },
        ),
        PendingMouseCommand::CraneRepair(c) => PendingMouseCommand::CraneRepair(
            PendingMouseCraneRepairCommand {
                world_pos: c.world_pos,
                selected_refs: retain_refs(&c.selected_refs, keep),
                crane_refs: retain_refs(&c.crane_refs, keep),
                target: c.target,
            },
        ),
        PendingMouseCommand::Enter(c) => PendingMouseCommand::Enter(
            PendingMouseEnterCommand {
                world_pos: c.world_pos,
                selected_refs: retain_refs(&c.selected_refs, keep),
                robot_refs: retain_refs(&c.robot_refs, keep),
                target: c.target,
            },
        ),
        PendingMouseCommand::EnterFort(c) => PendingMouseCommand::EnterFort(
            PendingMouseEnterFortCommand {
                world_pos: c.world_pos,
                selected_refs: retain_refs(&c.selected_refs, keep),
                robot_refs: retain_refs(&c.robot_refs, keep),
                target: c.target,
            },
        ),
    }
}

/// The refs that waiting orders keep: those of the orders' selections that
/// the account's access lets pass.
pub open spec fn spec_pending_allowed_refs<P>(
    pending: Seq<PendingMouseCommand<P>>,
    needs: Seq<(u32, bool)>,
    access: SourceCommandActivationAccess,
) -> Seq<u32> {
    spec_filter_activation_refs(spec_distinct_refs(spec_flat_selected_refs(pending)), needs, access).0
}

/// The news lines of the refused refs: one per distinct ref of the orders'
/// selections, in the order the refs first appear.
pub open spec fn spec_pending_activation_news<P>(
    pending: Seq<PendingMouseCommand<P>>,
    needs: Seq<(u32, bool)>,
    access: SourceCommandActivationAccess,
) -> Seq<Seq<char>> {
    spec_filter_activation_refs(spec_distinct_refs(spec_flat_selected_refs(pending)), needs, access).1
}

/// A sequence with `x` pushed holds exactly what it held, and `x`.
proof fn lemma_push_contains(s: Seq<u32>, x: u32, y: u32)
    ensures
        s.push(x).contains(y) <==> (s.contains(y) || x == y),
{
    if s.push(x).contains(y) && x != y {
        let k = choose|k: int| 0 <= k < s.push(x).len() && s.push(x)[k] == y;
        assert(k < s.len());
        assert(s[k] == y);
    }
    if s.contains(y) {
        let k = choose|k: int| 0 <= k < s.len() && s[k] == y;
        assert(s.push(x)[k] == y);
    }
    if x == y {
        assert(s.push(x)[s.len() as int] == y);
    }
}

/// Every ref of `refs` keeps a place among its distinct refs.
proof fn lemma_distinct_refs_keep_members(refs: Seq<u32>, ref_id: u32)
    ensures
        refs.contains(ref_id) <==> spec_distinct_refs(refs).contains(ref_id),
    decreases refs.len(),
{
    if refs.len() > 0 {
        let rest = refs.drop_last();
        let d = spec_distinct_refs(rest);
        lemma_distinct_refs_keep_members(rest, ref_id);
        assert(rest.push(refs.last()) =~= refs);
        lemma_push_contains(rest, refs.last(), ref_id);
        lemma_push_contains(d, refs.last(), ref_id);
        if d.contains(refs.last()) {
            lemma_distinct_refs_keep_members(rest, refs.last());
        }
    }
}

/// A ref of `refs` that is on the map and needs no activation is kept.
proof fn lemma_unrestricted_ref_is_kept(
    refs: Seq<u32>,
    needs: Seq<(u32, bool)>,
    access: SourceCommandActivationAccess,
    ref_id: u32,
)
    requires
        refs.contains(ref_id),
        crate::selection::activation::spec_activation_need_of(ref_id, needs) == Some(false),
    ensures
        spec_filter_activation_refs(refs, needs, access).0.contains(ref_id),
    decreases refs.len(),
{
    let rest = refs.drop_last();
    if refs.last() == ref_id {
        assert(spec_filter_activation_refs(refs, needs, access).0 == spec_filter_activation_refs(rest, needs, access).0.push(
            ref_id,
        ));
        assert(spec_filter_activation_refs(refs, needs, access).0.last() == ref_id);
    } else {
        let k = choose|k: int| 0 <= k < refs.len() && refs[k] == ref_id;
        assert(k != refs.len() - 1);
        assert(rest[k] == ref_id);
        lemma_unrestricted_ref_is_kept(rest, needs, access, ref_id);
        let kept = spec_filter_activation_refs(rest, needs, access).0;
        let j = choose|j: int| 0 <= j < kept.len() && kept[j] == ref_id;
        let all = spec_filter_activation_refs(refs, needs, access).0;
        assert(all == kept || all == kept.push(refs.last()));
        assert(all[j] == ref_id);
    }
}

/// Only units that need an activated account are ever taken out of waiting
/// orders: a ref of any order's selection that is on the map and needs no
/// activation passes, whatever the account, and so stays in every ref list
/// of every order that holds it.
pub proof fn lemma_unrestricted_pending_refs_are_kept<P>(
    pending: Seq<PendingMouseCommand<P>>,
    needs: Seq<(u32, bool)>,
    access: SourceCommandActivationAccess,
    ref_id: u32,
)
    requires
        spec_flat_selected_refs(pending).contains(ref_id),
        crate::selection::activation::spec_activation_need_of(ref_id, needs) == Some(false),
    ensures
        spec_pending_allowed_refs(pending, needs, access).contains(ref_id),
{
    let flat = spec_flat_selected_refs(pending);
    lemma_distinct_refs_keep_members(flat, ref_id);
    lemma_unrestricted_ref_is_kept(spec_distinct_refs(flat), needs, access, ref_id);
}

/// Filters waiting orders by the account's access when they are sent: the
/// distinct refs of all their selections are checked once each (see
/// `source_filter_activation_refs`; `needs` pairs each object on the map
/// with whether its kind needs an activated account), and every ref list of
/// every order keeps only the refs that pass. Returns the news lines of the
/// refused refs.
pub fn source_filter_pending_activation<P: Copy>(
    pending: &mut Vec<PendingMouseCommand<P>>,
    needs: &[(u32, bool)],
    access: SourceCommandActivationAccess,
) -> (news: Vec<&'static str>)
    ensures
        final(pending)@.len() == old(pending)@.len(),
        forall|i: int|
            0 <= i < old(pending)@.len() ==> spec_command_filtered(
                #[trigger] old(pending)@[i],
                final(pending)@[i],
                spec_pending_allowed_refs(old(pending)@, needs@, access),
            ),
        news@.len() == spec_pending_activation_news(old(pending)@, needs@, access).len(),
        forall|k: int|
            0 <= k < news@.len() ==> #[trigger] news@[k]@ == spec_pending_activation_news(
                old(pending)@,
                needs@,
                access,
            )[k],
{
    let attempted = attempted_refs(pending);
    let (allowed, news) = source_filter_activation_refs(attempted.as_slice(), needs, access);
    let mut filtered: Vec<PendingMouseCommand<P>> = Vec::new();
    let mut i: usize = 0;
    while i < pending.len()
        invariant
            i <= pending@.len(),
            pending@ == old(pending)@,
            allowed@ == spec_pending_allowed_refs(old(pending)@, needs@, access),
            filtered@.len() == i,
            forall|k: int| 0 <= k < i ==> spec_command_filtered(#[trigger] pending@[k], filtered@[k], allowed@),
        decreases pending@.len() - i,
    {
        let command = filter_command(&pending[i], &allowed);
        filtered.push(command);
        i = i + 1;
    }
    *pending = filtered;
    news
}

} // verus!
