//! What holds of every run of operations on a host that behaves as the
//! model says: the records and notifications stay well-formed, a record is
//! never removed and changes at most once, and the states of an escrow
//! follow one another as its life says.

use crate::accounts::{CancelEscrow, InitializeEscrow, ReleaseEscrow};
use crate::address::{derived, Namespace};
use crate::guarantees::lemma_completed_is_final;
use crate::host::{EscrowState, Host, Notice, Step};
use crate::identity::Identity;
use crate::record::EscrowAccount;
use vstd::prelude::*;

verus! {

/// A host that stores no record and has filed no notification is
/// well-formed.
pub proof fn lemma_fresh_host_well_formed(host: Host)
    requires
        forall|key: Identity| !host.records.dom().contains(key),
        host.notices.len() == 0,
    ensures
        host.well_formed(),
{
}

/// Notifications that were filed stay filed: what they tell of an escrow,
/// they tell after more of them were filed.
proof fn lemma_notices_stay(host: Host, next: Host, escrow_id: u64)
    requires
        host.notices.len() <= next.notices.len(),
        forall|i: int| 0 <= i < host.notices.len() ==> next.notices[i] == host.notices[i],
    ensures
        host.released(escrow_id) ==> next.released(escrow_id),
        host.cancelled(escrow_id) ==> next.cancelled(escrow_id),
{
    if host.released(escrow_id) {
        let i: int = choose|i: int|
            0 <= i < host.notices.len() && (#[trigger] host.notices[i]).releases(escrow_id);
        assert(next.notices[i].releases(escrow_id));
    }
    if host.cancelled(escrow_id) {
        let i: int = choose|i: int|
            0 <= i < host.notices.len() && (#[trigger] host.notices[i]).cancels(escrow_id);
        assert(next.notices[i].cancels(escrow_id));
    }
}

/// A well-formed host stays well-formed when a pending record is stored at
/// a free address, the one derived for its identifier, and a notification
/// that tells no end is filed.
proof fn lemma_creation_keeps_well_formed(
    host: Host,
    next: Host,
    key: Identity,
    record: EscrowAccount,
    notice: Notice,
)
    requires
        host.well_formed(),
        !host.records.dom().contains(key),
        record.well_formed(),
        record.pending(),
        derived(Namespace::Escrow, record.escrow_id) == Some((key, record.bump)),
        next.records == host.records.insert(key, record),
        next.notices == host.notices.push(notice),
        notice.ended() is None,
    ensures
        next.well_formed(),
{
    assert forall|i: int| 0 <= i < next.notices.len() implies ((#[trigger] next.notices[i]).ended()
        matches Some(escrow_id) ==> next.completed_record_of(escrow_id)) by {
        if i < host.notices.len() {
            assert(next.notices[i] == host.notices[i]);
        }
    }
    assert forall|other: Identity|
        next.records.dom().contains(other) && (#[trigger] next.records[other]).is_completed implies (
    next.released(next.records[other].escrow_id) || next.cancelled(
        next.records[other].escrow_id,
    )) by {
        lemma_notices_stay(host, next, host.records[other].escrow_id);
    }
}

/// A well-formed host stays well-formed when a pending record is completed
/// and a notification that tells the end of its escrow is filed.
proof fn lemma_end_keeps_well_formed(host: Host, next: Host, key: Identity, notice: Notice)
    requires
        host.well_formed(),
        host.records.dom().contains(key),
        host.records[key].pending(),
        next.records == host.records.insert(key, host.records[key].completed()),
        next.notices == host.notices.push(notice),
        notice.ended() == Some(host.records[key].escrow_id),
    ensures
        next.well_formed(),
{
    let filed: int = host.notices.len() as int;
    let ended: u64 = host.records[key].escrow_id;
    assert forall|i: int| 0 <= i < next.notices.len() implies ((#[trigger] next.notices[i]).ended()
        matches Some(escrow_id) ==> next.completed_record_of(escrow_id)) by {
        if i < filed {
            assert(next.notices[i] == host.notices[i]);
        }
    }
    assert forall|i: int, j: int|
        0 <= i < j < next.notices.len() && (#[trigger] next.notices[i]).ended() is Some implies (
    #[trigger] next.notices[j]).ended() != next.notices[i].ended() by {
        assert(next.notices[i] == host.notices[i]);
        if j == filed {
            assert(host.completed_record_of(host.notices[i].ended()->Some_0));
        }
    }
    assert forall|other: Identity|
        next.records.dom().contains(other) && (#[trigger] next.records[other]).is_completed implies (
    next.released(next.records[other].escrow_id) || next.cancelled(
        next.records[other].escrow_id,
    )) by {
        if other == key {
            assert(next.notices[filed].releases(ended) || next.notices[filed].cancels(ended));
        } else {
            lemma_notices_stay(host, next, host.records[other].escrow_id);
        }
    }
}

/// One operation keeps a well-formed host well-formed.
pub proof fn lemma_step_keeps_well_formed(host: Host, step: Step)
    requires
        host.well_formed(),
    ensures
        host.after(step).well_formed(),
{
    let next = host.after(step);
    if host.step(step) is Ok {
        match step {
            Step::Initialize { creation, .. } => {
                lemma_creation_keeps_well_formed(
                    host,
                    next,
                    creation.escrow_key,
                    next.records[creation.escrow_key],
                    next.notices.last(),
                );
            },
            Step::Release { release } => {
                lemma_end_keeps_well_formed(host, next, release.escrow_key, next.notices.last());
            },
            Step::Cancel { cancel, .. } => {
                lemma_end_keeps_well_formed(host, next, cancel.escrow_key, next.notices.last());
            },
        }
    }
}

/// Whatever operations reach a well-formed host, it is well-formed
/// afterwards.
pub proof fn lemma_run_keeps_well_formed(host: Host, steps: Seq<Step>)
    requires
        host.well_formed(),
    ensures
        host.run(steps).well_formed(),
    decreases steps.len(),
{
    if steps.len() > 0 {
        lemma_run_keeps_well_formed(host, steps.drop_last());
        lemma_step_keeps_well_formed(host.run(steps.drop_last()), steps.last());
    }
}

/// A notification that does not tell the release of an escrow leaves what
/// the notifications tell of its release as it was.
proof fn lemma_release_told_before(host: Host, next: Host, notice: Notice, escrow_id: u64)
    requires
        next.notices == host.notices.push(notice),
        !notice.releases(escrow_id),
    ensures
        next.released(escrow_id) == host.released(escrow_id),
{
    lemma_notices_stay(host, next, escrow_id);
    if next.released(escrow_id) {
        let i: int = choose|i: int|
            0 <= i < next.notices.len() && (#[trigger] next.notices[i]).releases(escrow_id);
        assert(host.notices[i].releases(escrow_id));
    }
}

/// On a well-formed host no notification tells the release or the
/// cancellation of an escrow whose record is pending.
proof fn lemma_pending_has_no_end(host: Host, key: Identity)
    requires
        host.well_formed(),
        host.records.dom().contains(key),
        host.records[key].pending(),
    ensures
        !host.released(host.records[key].escrow_id),
        !host.cancelled(host.records[key].escrow_id),
{
    let escrow_id: u64 = host.records[key].escrow_id;
    assert forall|i: int| 0 <= i < host.notices.len() implies !(#[trigger] host.notices[i]).releases(
        escrow_id,
    ) && !host.notices[i].cancels(escrow_id) by {
        if host.notices[i].ended() == Some(escrow_id) {
            assert(host.completed_record_of(escrow_id));
        }
    }
}

/// The states follow one another as the life of an escrow says, and in no
/// other way. Whatever operation reaches a well-formed host, the state of the
/// escrow at an address afterwards is the state before, or the escrow came
/// to be and is pending, or it was pending and is released or cancelled. An
/// operation that is given up changes no state; a creation that is carried
/// out leaves its escrow pending, a release released and a cancellation
/// cancelled.
pub proof fn lemma_states_follow_the_life(host: Host, step: Step, key: Identity)
    requires
        host.well_formed(),
    ensures
        ({
            let before = host.state(key);
            let after = host.after(step).state(key);
            &&& after == before || (before is None && after == Some(EscrowState::Pending)) || (
            before == Some(EscrowState::Pending) && (after == Some(EscrowState::Released) || after
                == Some(EscrowState::Cancelled)))
            &&& host.step(step) is Err ==> after == before
            &&& host.step(step) is Ok ==> match step {
                Step::Initialize { creation, .. } => host.state(creation.escrow_key) is None
                    && host.after(step).state(creation.escrow_key) == Some(EscrowState::Pending),
                Step::Release { release } => host.state(release.escrow_key) == Some(
                    EscrowState::Pending,
                ) && host.after(step).state(release.escrow_key) == Some(EscrowState::Released),
                Step::Cancel { cancel, .. } => host.state(cancel.escrow_key) == Some(
                    EscrowState::Pending,
                ) && host.after(step).state(cancel.escrow_key) == Some(EscrowState::Cancelled),
            }
        }),
{
    let next = host.after(step);
    if host.step(step) is Ok {
        let notice = next.notices.last();
        match step {
            Step::Initialize { creation, .. } => {
                if host.records.dom().contains(key) {
                    lemma_release_told_before(host, next, notice, host.records[key].escrow_id);
                }
            },
            Step::Release { release } => {
                let ended = release.escrow_key;
                assert(notice.releases(host.records[ended].escrow_id));
                if host.records.dom().contains(key) && key != ended {
                    lemma_release_told_before(host, next, notice, host.records[key].escrow_id);
                }
            },
            Step::Cancel { cancel, .. } => {
                let ended = cancel.escrow_key;
                lemma_pending_has_no_end(host, ended);
                lemma_release_told_before(host, next, notice, host.records[ended].escrow_id);
                if host.records.dom().contains(key) && key != ended {
                    lemma_release_told_before(host, next, notice, host.records[key].escrow_id);
                }
            },
        }
    }
}

/// The end of an escrow is for good: whatever operations reach a well-formed
/// host, an escrow that is released stays released, and one that is
/// cancelled stays cancelled.
pub proof fn lemma_end_is_for_good(host: Host, steps: Seq<Step>, key: Identity)
    requires
        host.well_formed(),
        host.state(key) == Some(EscrowState::Released) || host.state(key) == Some(
            EscrowState::Cancelled,
        ),
    ensures
        host.run(steps).state(key) == host.state(key),
    decreases steps.len(),
{
    if steps.len() > 0 {
        lemma_end_is_for_good(host, steps.drop_last(), key);
        lemma_run_keeps_well_formed(host, steps.drop_last());
        lemma_states_follow_the_life(host.run(steps.drop_last()), steps.last(), key);
    }
}

/// On a well-formed host the identifier tells the record: no two stored
/// records carry the same escrow identifier.
pub proof fn lemma_identifier_tells_record(host: Host, one: Identity, other: Identity)
    requires
        host.well_formed(),
        host.records.dom().contains(one),
        host.records.dom().contains(other),
        host.records[one].escrow_id == host.records[other].escrow_id,
    ensures
        one == other,
{
}

/// One operation keeps every stored record, as it was or completed.
pub proof fn lemma_step_keeps_records(host: Host, step: Step, key: Identity)
    requires
        host.records.dom().contains(key),
    ensures
        host.after(step).records.dom().contains(key),
        host.after(step).records[key] == host.records[key] || (host.records[key].pending()
            && host.after(step).records[key] == host.records[key].completed()),
{
}

/// A record is never removed and changes at most once: whatever operations
/// reach the host, a record that is stored stays stored, and it is either as
/// it was or, if it was pending, completed and otherwise as it was. So a
/// completed record never changes again, and the parties, the asset, the
/// amount and the expiry of a record never change at all.
pub proof fn lemma_run_keeps_records(host: Host, steps: Seq<Step>, key: Identity)
    requires
        host.records.dom().contains(key),
    ensures
        host.run(steps).records.dom().contains(key),
        host.run(steps).records[key] == host.records[key] || (host.records[key].pending()
            && host.run(steps).records[key] == host.records[key].completed()),
    decreases steps.len(),
{
    if steps.len() > 0 {
        lemma_run_keeps_records(host, steps.drop_last(), key);
        lemma_step_keeps_records(host.run(steps.drop_last()), steps.last(), key);
    }
}

/// An escrow is created once for all: where a record is stored at the
/// address derived for an identifier, then, whatever operations reach the
/// host in between, every creation under that identifier is given up.
pub proof fn lemma_created_once_for_all(
    host: Host,
    steps: Seq<Step>,
    ctx: InitializeEscrow,
    escrow_id: u64,
    amount: u64,
    expiry_time: i64,
    now: i64,
)
    requires
        derived(Namespace::Escrow, escrow_id) matches Some((key, _)) && host.records.dom().contains(
            key,
        ),
    ensures
        host.run(steps).initialize(ctx, escrow_id, amount, expiry_time, now) is Err,
{
    let key = derived(Namespace::Escrow, escrow_id)->Some_0.0;
    lemma_run_keeps_records(host, steps, key);
}

/// A completed escrow stays completed for all: where the stored record is
/// completed, then, whatever operations reach the host in between, every
/// release and every cancellation at its address is given up.
pub proof fn lemma_completed_for_all(
    host: Host,
    steps: Seq<Step>,
    release: ReleaseEscrow,
    cancel: CancelEscrow,
    now: i64,
)
    requires
        host.records.dom().contains(release.escrow_key),
        host.records[release.escrow_key].is_completed,
        cancel.escrow_key == release.escrow_key,
    ensures
        host.run(steps).release(release) is Err,
        host.run(steps).cancel(cancel, now) is Err,
{
    lemma_run_keeps_records(host, steps, release.escrow_key);
    lemma_completed_is_final(host.run(steps), release, cancel, now);
}

} // verus!
