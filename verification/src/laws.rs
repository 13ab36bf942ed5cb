//! Laws of the session layer that relate several of its operations.

use vstd::prelude::*;
use crate::defs::{ClientId, Memory, MemoryPoolId, ObjectId, Position, SurfaceContext, SurfaceId};
use crate::effect::{Diagnostic, Effect};
use crate::facade::{attach_effects, attached, lookup};
use crate::gateway::{fan_out, focus_object, keyboard_enters, keyboard_leaves, pointer_enters};
use crate::gateway::{pointer_leaves, refreshed, told, Notice};
use crate::global::{advertised, Capability, Global};
use crate::proxy::{termination, ProxyView};
use crate::screenshot::{finished, reclaimed, requested, Handshake, ScreenshotState};
use crate::surface::SurfaceInfo;

verus! {

/// The registry after the capabilities in `added` were registered one after
/// the other on top of `registered`.
pub open spec fn register_all(registered: Seq<Capability>, added: Seq<Capability>) -> Seq<
    Capability,
>
    decreases added.len(),
{
    if added.len() == 0 {
        registered
    } else {
        register_all(registered.push(added.first()), added.drop_first())
    }
}

/// Successive registrations append to what was registered.
pub proof fn lemma_register_all_appends(registered: Seq<Capability>, added: Seq<Capability>)
    ensures
        register_all(registered, added) == registered + added,
    decreases added.len(),
{
    if added.len() == 0 {
        assert(registered + added =~= registered);
    } else {
        lemma_register_all_appends(registered.push(added.first()), added.drop_first());
        assert(registered.push(added.first()) + added.drop_first() =~= registered + added);
    }
}

/// After any sequence of registrations on an empty registry, enumeration
/// yields the names 1, 2, 3 and so on, each with the capability of the call
/// that was given that name.
pub proof fn lemma_enumeration_follows_registration(capabilities: Seq<Capability>)
    requires
        capabilities.len() <= u32::MAX,
    ensures
        advertised(register_all(Seq::empty(), capabilities)).len() == capabilities.len(),
        forall|i: int|
            0 <= i < capabilities.len() ==> #[trigger] advertised(
                register_all(Seq::empty(), capabilities),
            )[i] == (Global { name: (i + 1) as u32, capability: capabilities[i] }),
        forall|i: int|
            0 <= i < capabilities.len() ==> (#[trigger] advertised(
                register_all(Seq::empty(), capabilities),
            )[i]).name == i + 1,
{
    lemma_register_all_appends(Seq::empty(), capabilities);
    assert(Seq::<Capability>::empty() + capabilities =~= capabilities);
}

/// Whether an effect asks the domain to attach a buffer.
pub open spec fn is_attach(effect: Effect) -> bool {
    effect is AttachShm || effect is AttachEglImage || effect is AttachDmabuf
}

/// How many effects of a list ask the domain to detach a surface.
pub open spec fn detaches(effects: Seq<Effect>) -> nat
    decreases effects.len(),
{
    if effects.len() == 0 {
        0
    } else {
        detaches(effects.drop_last()) + (if effects.last() is DetachSurface {
            1nat
        } else {
            0nat
        })
    }
}

/// Attaching the null object to a surface, after a known buffer was attached
/// to it, asks the domain for exactly one detach, of that surface, and for
/// no attach; the session, and with it the record of the buffer's backend,
/// stays as the first attach left it.
pub proof fn lemma_null_attach_detaches_once(
    view: ProxyView,
    buffer_oid: ObjectId,
    sid: SurfaceId,
    null: ObjectId,
)
    requires
        !buffer_oid.is_null(),
        view.buffers.contains_key(buffer_oid.value),
        null.is_null(),
    ensures
        ({
            let before = attached(view, buffer_oid, sid);
            let effects = attach_effects(before, null, sid);
            &&& detaches(effects) == 1
            &&& forall|i: int| 0 <= i < effects.len() ==> !is_attach(#[trigger] effects[i])
            &&& effects.contains(Effect::DetachSurface { surface: sid })
            &&& attached(before, null, sid) == before
            &&& before.buffers == view.buffers
            &&& lookup(attached(before, null, sid).buffers, buffer_oid) == lookup(
                view.buffers,
                buffer_oid,
            )
        }),
{
    let before = attached(view, buffer_oid, sid);
    let effects = attach_effects(before, null, sid);
    let unrelate = Effect::UnrelateSurface { surface: sid };
    let detach = Effect::DetachSurface { surface: sid };
    assert(effects =~= seq![unrelate, detach]);
    assert(effects.drop_last() =~= seq![unrelate]);
    assert(effects.drop_last().drop_last() =~= Seq::<Effect>::empty());
    assert(detaches(effects.drop_last().drop_last()) == 0);
    assert(detaches(effects.drop_last()) == 0);
    assert(effects[1] == detach);
}

/// After a known, non-null buffer was attached to a surface, the surface's
/// record names that buffer as the pending one, whatever it named before,
/// and its other slots are as they were: empty where the surface had no
/// record.
pub proof fn lemma_attach_records_pending_buffer(
    view: ProxyView,
    buffer_oid: ObjectId,
    sid: SurfaceId,
)
    requires
        !buffer_oid.is_null(),
        view.buffers.contains_key(buffer_oid.value),
    ensures
        ({
            let before = if view.surface_infos.contains_key(sid) {
                view.surface_infos[sid]
            } else {
                SurfaceInfo::empty()
            };
            let after = attached(view, buffer_oid, sid).surface_infos;
            &&& after.contains_key(sid)
            &&& after[sid] == (SurfaceInfo { buffer_oid: Some(buffer_oid), ..before })
            &&& forall|other: SurfaceId|
                other != sid ==> after.contains_key(other) == view.surface_infos.contains_key(other)
                    && after[other] == view.surface_infos[other]
        }),
{
}

/// Ending a session that was ended before, with nothing handled in between,
/// asks for nothing.
pub proof fn lemma_teardown_is_idempotent(view: ProxyView)
    ensures
        ({
            let ended = ProxyView {
                pools: Seq::empty(),
                surface_objects: Seq::empty(),
                surfaces: Map::empty(),
                ..view
            };
            termination(ended.pools, ended.surface_objects, ended.surfaces) == Seq::<Effect>::empty()
        }),
{
    assert(termination(Seq::empty(), Seq::empty(), Map::empty()) =~= Seq::<Effect>::empty());
}

/// Whether an effect tells a client object that the focus left a surface.
pub open spec fn is_leave(effect: Effect) -> bool {
    effect is PointerLeave || effect is KeyboardLeave
}

/// Whether an effect tells a client object that the focus entered a surface.
pub open spec fn is_enter(effect: Effect) -> bool {
    effect is PointerEnter || effect is KeyboardEnter
}

/// How many effects of a list are leaves.
pub open spec fn leaves(effects: Seq<Effect>) -> nat
    decreases effects.len(),
{
    if effects.len() == 0 {
        0
    } else {
        leaves(effects.drop_last()) + (if is_leave(effects.last()) {
            1nat
        } else {
            0nat
        })
    }
}

/// How many effects of a list are enters.
pub open spec fn enters(effects: Seq<Effect>) -> nat
    decreases effects.len(),
{
    if effects.len() == 0 {
        0
    } else {
        enters(effects.drop_last()) + (if is_enter(effects.last()) {
            1nat
        } else {
            0nat
        })
    }
}

/// The leaves and enters of two lists add up.
pub proof fn lemma_counts_add(a: Seq<Effect>, b: Seq<Effect>)
    ensures
        leaves(a + b) == leaves(a) + leaves(b),
        enters(a + b) == enters(a) + enters(b),
    decreases b.len(),
{
    if b.len() == 0 {
        assert(a + b =~= a);
    } else {
        lemma_counts_add(a, b.drop_last());
        assert((a + b).drop_last() =~= a + b.drop_last());
    }
}

/// A reconfiguration holds neither a leave nor an enter.
pub proof fn lemma_reconfiguration_is_no_focus_message(
    infos: Map<SurfaceId, SurfaceInfo>,
    sid: SurfaceId,
    context: Option<SurfaceContext>,
    focused: SurfaceId,
)
    ensures
        leaves(refreshed(infos, sid, context, focused)) == 0,
        enters(refreshed(infos, sid, context, focused)) == 0,
        forall|i: int|
            0 <= i < refreshed(infos, sid, context, focused).len() ==> {
                let effect = #[trigger] refreshed(infos, sid, context, focused)[i];
                !is_leave(effect) && !is_enter(effect)
            },
{
    let then = refreshed(infos, sid, context, focused);
    if then.len() == 2 {
        assert(then.drop_last().len() == 1);
        assert(then.drop_last().drop_last().len() == 0);
        assert(then.drop_last().last() == then[0]);
        assert(leaves(then.drop_last().drop_last()) == 0);
        assert(enters(then.drop_last().drop_last()) == 0);
        assert(leaves(then.drop_last()) == 0);
        assert(enters(then.drop_last()) == 0);
    } else if then.len() == 1 {
        assert(then.drop_last().len() == 0);
        assert(leaves(then.drop_last()) == 0);
        assert(enters(then.drop_last()) == 0);
    }
}

/// Telling every target that the focus left holds one leave for each target
/// and no enter, provided what follows each leave holds neither.
pub proof fn lemma_leaving_fan_out(targets: Seq<ObjectId>, notice: Notice)
    requires
        notice is PointerLeave || notice is KeyboardLeave,
        notice is KeyboardLeave ==> leaves(notice->KeyboardLeave_then) == 0 && enters(
            notice->KeyboardLeave_then,
        ) == 0,
    ensures
        leaves(fan_out(targets, notice)) == targets.len(),
        enters(fan_out(targets, notice)) == 0,
    decreases targets.len(),
{
    if targets.len() > 0 {
        lemma_leaving_fan_out(targets.drop_last(), notice);
        let each = told(targets.last(), notice);
        lemma_counts_add(fan_out(targets.drop_last(), notice), each);
        let head = seq![each[0]];
        let then = each.subrange(1, each.len() as int);
        assert(each =~= head + then);
        lemma_counts_add(head, then);
        assert(head.drop_last() =~= Seq::<Effect>::empty());
        assert(leaves(head.drop_last()) == 0 && enters(head.drop_last()) == 0);
        assert(head.last() == each[0]);
        assert(is_leave(each[0]) && !is_enter(each[0]));
        assert(leaves(head) == 1 && enters(head) == 0);
        match notice {
            Notice::KeyboardLeave { surface, then: follows } => {
                assert(then =~= follows);
            },
            _ => {
                assert(then =~= Seq::<Effect>::empty());
            },
        }
    }
}

/// A list without enters holds no enter at any place.
pub proof fn lemma_no_enters(effects: Seq<Effect>)
    requires
        enters(effects) == 0,
    ensures
        forall|i: int| 0 <= i < effects.len() ==> !is_enter(#[trigger] effects[i]),
    decreases effects.len(),
{
    if effects.len() > 0 {
        lemma_no_enters(effects.drop_last());
        assert forall|i: int| 0 <= i < effects.len() implies !is_enter(#[trigger] effects[i]) by {
            if i < effects.len() - 1 {
                assert(effects.drop_last()[i] == effects[i]);
            }
        }
    }
}

/// When the pointer focus moves between two surfaces that both have a
/// surface object, what is emitted is a block of leaves followed by a block
/// of enters: the first block holds one leave for each pointer object, in
/// binding order, and no enter; the second one enter for each pointer object
/// and no leave.
pub proof fn lemma_pointer_focus_order(
    pointers: Seq<ObjectId>,
    infos: Map<SurfaceId, SurfaceInfo>,
    old_sid: SurfaceId,
    new_sid: SurfaceId,
    position: Position,
)
    requires
        focus_object(infos, old_sid) is Some,
        focus_object(infos, new_sid) is Some,
    ensures
        ({
            let first = pointer_leaves(pointers, infos, old_sid);
            let second = pointer_enters(pointers, infos, new_sid, position);
            &&& first.len() == pointers.len()
            &&& second.len() == pointers.len()
            &&& forall|i: int|
                0 <= i < pointers.len() ==> #[trigger] first[i] == (Effect::PointerLeave {
                    pointer: pointers[i],
                    surface: focus_object(infos, old_sid)->0,
                })
            &&& forall|i: int|
                0 <= i < pointers.len() ==> #[trigger] second[i] == (Effect::PointerEnter {
                    pointer: pointers[i],
                    surface: focus_object(infos, new_sid)->0,
                    position,
                })
        }),
{
    let leave = Notice::PointerLeave { surface: focus_object(infos, old_sid)->0 };
    let enter = Notice::PointerEnter { surface: focus_object(infos, new_sid)->0, position };
    lemma_single_message_fan_out(pointers, leave);
    lemma_single_message_fan_out(pointers, enter);
}

/// Where each target is told one message, the fan-out holds the message of
/// each target at the target's place.
pub proof fn lemma_single_message_fan_out(targets: Seq<ObjectId>, notice: Notice)
    requires
        forall|target: ObjectId| (#[trigger] told(target, notice)).len() == 1,
    ensures
        fan_out(targets, notice).len() == targets.len(),
        forall|i: int|
            0 <= i < targets.len() ==> #[trigger] fan_out(targets, notice)[i] == told(
                targets[i],
                notice,
            )[0],
    decreases targets.len(),
{
    if targets.len() > 0 {
        lemma_single_message_fan_out(targets.drop_last(), notice);
        assert(told(targets.last(), notice).len() == 1);
        assert forall|i: int| 0 <= i < targets.len() implies #[trigger] fan_out(targets, notice)[i]
            == told(targets[i], notice)[0] by {
            if i < targets.len() - 1 {
                assert(targets.drop_last()[i] == targets[i]);
                assert(fan_out(targets.drop_last(), notice)[i] == told(targets[i], notice)[0]);
            }
        }
    }
}

/// Every effect in a fan-out of keyboard leaves is a leave or belongs to
/// what follows each leave.
pub proof fn lemma_leaving_fan_out_holds(targets: Seq<ObjectId>, surface: ObjectId, then: Seq<Effect>)
    ensures
        forall|i: int|
            0 <= i < fan_out(targets, Notice::KeyboardLeave { surface, then }).len() ==> {
                let effect = #[trigger] fan_out(targets, Notice::KeyboardLeave { surface, then })[i];
                effect is KeyboardLeave || then.contains(effect)
            },
    decreases targets.len(),
{
    let notice = Notice::KeyboardLeave { surface, then };
    if targets.len() > 0 {
        lemma_leaving_fan_out_holds(targets.drop_last(), surface, then);
        let earlier = fan_out(targets.drop_last(), notice);
        let each = told(targets.last(), notice);
        assert forall|i: int| 0 <= i < fan_out(targets, notice).len() implies {
            let effect = #[trigger] fan_out(targets, notice)[i];
            effect is KeyboardLeave || then.contains(effect)
        } by {
            if i < earlier.len() {
                assert(fan_out(targets, notice)[i] == earlier[i]);
            } else if i > earlier.len() {
                assert(fan_out(targets, notice)[i] == then[i - earlier.len() - 1]);
            }
        }
    }
}

/// When the keyboard focus moves between two surfaces that both have a
/// surface object, what is emitted is a block of leaves followed by a block
/// of enters. The first block holds one leave for each keyboard object and no
/// enter, and beside the leaves only the reconfiguration of the surface that
/// loses the focus. The second block holds one enter for each keyboard
/// object, in binding order, and nothing else: the surface that gains the
/// focus is not reconfigured.
pub proof fn lemma_keyboard_focus_order(
    keyboards: Seq<ObjectId>,
    infos: Map<SurfaceId, SurfaceInfo>,
    old_sid: SurfaceId,
    new_sid: SurfaceId,
    old_context: Option<SurfaceContext>,
    focused: SurfaceId,
)
    requires
        focus_object(infos, old_sid) is Some,
        focus_object(infos, new_sid) is Some,
    ensures
        ({
            let first = keyboard_leaves(keyboards, infos, old_sid, old_context, focused);
            let second = keyboard_enters(keyboards, infos, new_sid);
            &&& leaves(first) == keyboards.len()
            &&& forall|i: int| 0 <= i < first.len() ==> !is_enter(#[trigger] first[i])
            &&& forall|i: int|
                0 <= i < first.len() ==> (#[trigger] first[i]) is KeyboardLeave || refreshed(
                    infos,
                    old_sid,
                    old_context,
                    focused,
                ).contains(first[i])
            &&& second.len() == keyboards.len()
            &&& forall|i: int|
                0 <= i < keyboards.len() ==> #[trigger] second[i] == (Effect::KeyboardEnter {
                    keyboard: keyboards[i],
                    surface: focus_object(infos, new_sid)->0,
                })
        }),
{
    let first = keyboard_leaves(keyboards, infos, old_sid, old_context, focused);
    let then = refreshed(infos, old_sid, old_context, focused);
    lemma_reconfiguration_is_no_focus_message(infos, old_sid, old_context, focused);
    lemma_leaving_fan_out(
        keyboards,
        Notice::KeyboardLeave { surface: focus_object(infos, old_sid)->0, then },
    );
    lemma_leaving_fan_out_holds(keyboards, focus_object(infos, old_sid)->0, then);
    lemma_no_enters(first);
    lemma_single_message_fan_out(
        keyboards,
        Notice::KeyboardEnter { surface: focus_object(infos, new_sid)->0 },
    );
}

/// A focus change from a surface without a surface object, such as the
/// invalid surface, emits no leave at all.
pub proof fn lemma_focus_from_nowhere(
    targets: Seq<ObjectId>,
    infos: Map<SurfaceId, SurfaceInfo>,
    old_sid: SurfaceId,
    context: Option<SurfaceContext>,
    focused: SurfaceId,
)
    requires
        !old_sid.is_valid(),
    ensures
        pointer_leaves(targets, infos, old_sid) == Seq::<Effect>::empty(),
        keyboard_leaves(targets, infos, old_sid, context, focused) == Seq::<Effect>::empty(),
{
}

/// A capture request made while another is outstanding changes nothing in
/// the handshake, so the requester on record stays, and yields one report
/// and nothing else: the mediator is not asked again.
pub proof fn lemma_second_request_is_turned_down(
    h: Handshake,
    client: ClientId,
    requester: ObjectId,
    output: Option<i32>,
    pool: Option<MemoryPoolId>,
)
    requires
        h.state != ScreenshotState::Idle,
    ensures
        requested(h, client, requester, output, pool).0 == h,
        requested(h, client, requester, output, pool).1 == seq![
            Effect::Report { diagnostic: Diagnostic::ScreenshotPending },
        ],
        forall|i: int|
            0 <= i < requested(h, client, requester, output, pool).1.len() ==> !(
            #[trigger] requested(h, client, requester, output, pool).1[i] is RegisterScreenshoter),
{
}

/// The mediator's requester slot after it has carried out a list of
/// effects: the last registration in the list decides, and without one the
/// slot is as before.
pub open spec fn requester_slot(slot: Option<ClientId>, effects: Seq<Effect>) -> Option<ClientId>
    decreases effects.len(),
{
    if effects.len() == 0 {
        slot
    } else {
        match effects.last() {
            Effect::RegisterScreenshoter { client } => client,
            _ => requester_slot(slot, effects.drop_last()),
        }
    }
}

/// A whole handshake: a request in the idle state, the answer to the
/// reclaim if one was asked for, and the domain's word that the capture is
/// done if one was started. Gives the handshake and the mediator's slot at
/// the end.
pub open spec fn handshake_run(
    h: Handshake,
    slot: Option<ClientId>,
    client: ClientId,
    requester: ObjectId,
    output: Option<i32>,
    pool: Option<MemoryPoolId>,
    memory: Option<Memory>,
    captured: bool,
) -> (Handshake, Option<ClientId>) {
    let first = requested(h, client, requester, output, pool);
    let slot1 = requester_slot(slot, first.1);
    let second = reclaimed(first.0, client, memory);
    let slot2 = requester_slot(slot1, second.1);
    let third = finished(second.0, captured);
    (third.0, requester_slot(slot2, third.1))
}

/// Every handshake that starts idle with an empty requester slot, whether
/// it completes or fails on the way, ends idle with an empty requester slot.
pub proof fn lemma_handshake_ends_idle(
    h: Handshake,
    client: ClientId,
    requester: ObjectId,
    output: Option<i32>,
    pool: Option<MemoryPoolId>,
    memory: Option<Memory>,
    captured: bool,
)
    requires
        h.state == ScreenshotState::Idle,
    ensures
        handshake_run(h, None, client, requester, output, pool, memory, captured).0.state
            == ScreenshotState::Idle,
        handshake_run(h, None, client, requester, output, pool, memory, captured).1 is None,
{
    let first = requested(h, client, requester, output, pool);
    let slot1 = requester_slot(None, first.1);
    let second = reclaimed(first.0, client, memory);
    let slot2 = requester_slot(slot1, second.1);
    let third = finished(second.0, captured);
    lemma_slot_after_step(None, first.1);
    lemma_slot_after_step(slot1, second.1);
    lemma_slot_after_step(slot2, third.1);
}

/// The slot after a list of at most three effects, read off its end.
proof fn lemma_slot_after_step(slot: Option<ClientId>, effects: Seq<Effect>)
    requires
        effects.len() <= 3,
    ensures
        effects.len() == 0 ==> requester_slot(slot, effects) == slot,
        effects.len() > 0 && effects.last() is RegisterScreenshoter ==> requester_slot(slot, effects)
            == effects.last()->RegisterScreenshoter_client,
        effects.len() == 1 && !(effects[0] is RegisterScreenshoter) ==> requester_slot(slot, effects)
            == slot,
{
    if effects.len() == 1 {
        assert(effects.drop_last().len() == 0);
        assert(requester_slot(slot, effects.drop_last()) == slot);
    }
}

/// When a capture is done, the requester slot is cleared whatever it held
/// and whether or not the pixels could be copied, and the session is idle.
pub proof fn lemma_finish_clears_slot(h: Handshake, slot: Option<ClientId>, captured: bool)
    requires
        h.state is AwaitingCapture,
    ensures
        finished(h, captured).0.state == ScreenshotState::Idle,
        requester_slot(slot, finished(h, captured).1) is None,
        finished(h, captured).1.contains(
            Effect::ScreenshooterDone { screenshooter: h.state->AwaitingCapture_requester },
        ),
{
    let effects = finished(h, captured).1;
    assert(effects[1] == Effect::ScreenshooterDone {
        screenshooter: h.state->AwaitingCapture_requester,
    });
}

/// In the idle state, with memory in hand and a known output, a request
/// for a buffer without a pool starts the capture at once.
pub proof fn lemma_idle_request_succeeds(
    h: Handshake,
    client: ClientId,
    requester: ObjectId,
    output: i32,
)
    requires
        h.state == ScreenshotState::Idle,
        h.memory is Some,
    ensures
        requested(h, client, requester, Some(output), None).0.state == (
        ScreenshotState::AwaitingCapture { requester }),
        requested(h, client, requester, Some(output), None).1 == seq![
            Effect::TakeScreenshot { output },
            Effect::RegisterScreenshoter { client: Some(client) },
        ],
{
}

/// In the idle state a request for a buffer with a pool is taken up, and
/// when the pool's memory arrives and the output is known, the capture
/// starts.
pub proof fn lemma_idle_request_with_pool_succeeds(
    h: Handshake,
    client: ClientId,
    requester: ObjectId,
    output: i32,
    pool: MemoryPoolId,
    memory: Memory,
)
    requires
        h.state == ScreenshotState::Idle,
    ensures
        ({
            let first = requested(h, client, requester, Some(output), Some(pool));
            let second = reclaimed(first.0, client, Some(memory));
            &&& first.1 == seq![Effect::ReclaimMemoryPool { pool }]
            &&& second.0 == (Handshake {
                state: ScreenshotState::AwaitingCapture { requester },
                memory: Some(memory),
            })
            &&& second.1 == seq![
                Effect::TakeScreenshot { output },
                Effect::RegisterScreenshoter { client: Some(client) },
            ]
        }),
{
}

} // verus!
