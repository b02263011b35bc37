//! The check-in/check-out session machine.
//!
//! A user's session state is derived, not stored: the latest attendance
//! record decides it. One operation conflates check-in and check-out; its
//! branch is determined entirely by existing state plus a time window. A
//! session left open longer than the window is never closed by this path —
//! a forgotten checkout must not block future check-ins.

use vstd::prelude::*;

use crate::errors::ApiError;
use crate::identity::resolve_identity;
use crate::identity::resolve_identity_spec;
use crate::store::Store;
use crate::tables::Attendance;

verus! {

/// A sign-out is only accepted this long (in seconds, inclusive) after the
/// sign-in it closes; later calls sign in anew instead.
pub const CHECKOUT_WINDOW_SECONDS: i64 = 3 * 3600;

/// The index of the record deciding a user's session state: the user's
/// record with the latest check-in time, the earliest such index when tied.
pub open spec fn latest_attendance_idx(att: Seq<Attendance>, uid: u128) -> Option<int>
    decreases att.len(),
{
    if att.len() == 0 {
        None
    } else {
        let prev = latest_attendance_idx(att.drop_last(), uid);
        let k = att.len() - 1;
        if att[k].user_uuid != uid {
            prev
        } else {
            match prev {
                None => Some(k),
                Some(j) => if att[k].in_time > att[j].in_time {
                    Some(k)
                } else {
                    Some(j)
                },
            }
        }
    }
}

/// What the latest-record lookup returns: an index of the user's record
/// whose check-in time no other of their records exceeds — the earliest
/// such index — or `None` when the user has no record at all.
pub proof fn lemma_latest_attendance(att: Seq<Attendance>, uid: u128)
    ensures
        match latest_attendance_idx(att, uid) {
            Some(j) => 0 <= j < att.len() && att[j].user_uuid == uid && (forall|k: int|
                0 <= k < att.len() && (#[trigger] att[k]).user_uuid == uid ==> att[k].in_time
                    <= att[j].in_time) && (forall|k: int|
                0 <= k < j && (#[trigger] att[k]).user_uuid == uid ==> att[k].in_time
                    < att[j].in_time),
            None => forall|k: int| 0 <= k < att.len() ==> (#[trigger] att[k]).user_uuid != uid,
        },
    decreases att.len(),
{
    if att.len() > 0 {
        let pre = att.drop_last();
        lemma_latest_attendance(pre, uid);
        assert(forall|k: int| 0 <= k < pre.len() ==> #[trigger] pre[k] == att[k]);
        let last = att.len() - 1;
        match latest_attendance_idx(att, uid) {
            Some(j) => {
                assert forall|k: int|
                    0 <= k < att.len() && (#[trigger] att[k]).user_uuid == uid implies att[k].in_time
                    <= att[j].in_time by {
                    if k < last {
                        assert(pre[k] == att[k]);
                    }
                }
                assert forall|k: int|
                    0 <= k < j && (#[trigger] att[k]).user_uuid == uid implies att[k].in_time
                    < att[j].in_time by {
                    if k < last {
                        assert(pre[k] == att[k]);
                    }
                }
            },
            None => {
                assert forall|k: int| 0 <= k < att.len() implies (#[trigger] att[k]).user_uuid
                    != uid by {
                    if k < last {
                        assert(pre[k] == att[k]);
                    }
                }
            },
        }
    }
}

/// Whether the call closes an open session: the user's latest record is
/// open and its check-in lies at most the window back (inclusive).
pub open spec fn close_branch(att: Seq<Attendance>, uid: u128, now: i64) -> bool {
    latest_attendance_idx(att, uid) matches Some(j) && att[j].out_time is None && now
        - att[j].in_time <= CHECKOUT_WINDOW_SECONDS
}

impl Store {
    /// The index of the record deciding this user's session state.
    pub fn latest_attendance_index(&self, uid: u128) -> (r: Option<usize>)
        ensures
            (match r {
                Some(j) => latest_attendance_idx(self@.attendance, uid) == Some(j as int),
                None => latest_attendance_idx(self@.attendance, uid) is None,
            }),
    {
        let mut best: Option<usize> = None;
        let mut i: usize = 0;
        while i < self.attendance.len()
            invariant
                0 <= i <= self@.attendance.len(),
                (match best {
                    Some(b) => b < i && latest_attendance_idx(
                        self@.attendance.take(i as int),
                        uid,
                    ) == Some(b as int),
                    None => latest_attendance_idx(self@.attendance.take(i as int), uid) is None,
                }),
            decreases self@.attendance.len() - i,
        {
            proof {
                assert(self@.attendance.take(i + 1).drop_last() =~= self@.attendance.take(i as int));
                assert(self@.attendance.take(i + 1).last() == self@.attendance[i as int]);
            }
            let rec = &self.attendance[i];
            if rec.user_uuid == uid {
                match best {
                    None => {
                        best = Some(i);
                    },
                    Some(b) => {
                        if rec.in_time > self.attendance[b].in_time {
                            best = Some(i);
                        }
                    },
                }
            }
            i += 1;
        }
        proof {
            assert(self@.attendance.take(self@.attendance.len() as int) =~= self@.attendance);
        }
        best
    }
}

/// The full effect of one attendance call on the store: a resolution
/// failure propagates unchanged and touches nothing; within the window an
/// open latest record is closed in place, keeping its identifier; in every
/// other case a fresh open record is appended.
pub open spec fn log_attendance_post(
    pre: crate::store::StoreView,
    post: crate::store::StoreView,
    r: Result<Attendance, ApiError>,
    uuid: Option<Seq<char>>,
    email: Option<Seq<char>>,
    alt_id_field: Option<Seq<char>>,
    alt_id_value: Option<Seq<char>>,
    now: i64,
) -> bool {
    &&& post.users == pre.users
    &&& post.tokens == pre.tokens
    &&& post.next_serial == pre.next_serial
    &&& (match resolve_identity_spec(pre.users, uuid, email, alt_id_field, alt_id_value) {
        Err(e) => r == Err::<Attendance, ApiError>(ApiError::IdentityResolutionFailed(e)) && post
            == pre,
        Ok(uid) => if close_branch(pre.attendance, uid, now) {
            latest_attendance_idx(pre.attendance, uid) matches Some(j) && {
                let updated = (Attendance { out_time: Some(now), ..pre.attendance[j] });
                &&& r == Ok::<Attendance, ApiError>(updated)
                &&& post.attendance == pre.attendance.update(j, updated)
                &&& post.next_attendance_id == pre.next_attendance_id
            }
        } else {
            let fresh = (Attendance {
                id: pre.next_attendance_id,
                user_uuid: uid,
                in_time: now,
                out_time: None,
            });
            &&& r == Ok::<Attendance, ApiError>(fresh)
            &&& post.attendance == pre.attendance.push(fresh)
            &&& post.next_attendance_id == pre.next_attendance_id + 1
        },
    })
}

/// Log attendance for the user named by the identity hints. A resolution
/// failure propagates unchanged and leaves the store untouched. Otherwise:
/// an open session within the window is closed in place (the record keeps
/// its identifier and receives `now` as its check-out); in every other case
/// — no record, a closed latest record, or a stale open one — a fresh open
/// record is created with `now` as its check-in.
pub fn log_attendance(
    store: &mut Store,
    uuid: Option<String>,
    email: Option<String>,
    alt_id_field: Option<String>,
    alt_id_value: Option<String>,
    now: i64,
) -> (r: Result<Attendance, ApiError>)
    requires
        old(store)@.wf(),
        old(store)@.next_attendance_id < i32::MAX,
    ensures
        final(store)@.wf(),
        log_attendance_post(
            old(store)@,
            final(store)@,
            r,
            uuid.deep_view(),
            email.deep_view(),
            alt_id_field.deep_view(),
            alt_id_value.deep_view(),
            now,
        ),
{
    let uid = match resolve_identity(store, uuid, email, alt_id_field, alt_id_value) {
        Ok(u) => u,
        Err(e) => {
            return Err(ApiError::IdentityResolutionFailed(e));
        },
    };
    if let Some(j) = store.latest_attendance_index(uid) {
        proof {
            lemma_latest_attendance(store@.attendance, uid);
        }
        let open_session = store.attendance[j].out_time.is_none();
        let within_window = (now as i128) - (store.attendance[j].in_time as i128) <= (
        CHECKOUT_WINDOW_SECONDS as i128);
        if open_session && within_window {
            let slot = &mut store.attendance[j];
            slot.out_time = Some(now);
            let updated = *slot;
            proof {
                assert(final(store)@.attendance =~= old(store)@.attendance.update(
                    j as int,
                    updated,
                ));
            }
            return Ok(updated);
        }
        proof {
            assert(!close_branch(old(store)@.attendance, uid, now));
        }
    } else {
        proof {
            assert(!close_branch(old(store)@.attendance, uid, now));
        }
    }
    let fresh = Attendance { id: store.next_attendance_id, user_uuid: uid, in_time: now, out_time: None };
    store.attendance.push(fresh);
    store.next_attendance_id = store.next_attendance_id + 1;
    proof {
        let att0 = old(store)@.attendance;
        let att1 = final(store)@.attendance;
        assert(att1 =~= att0.push(fresh));
        assert(forall|k: int| 0 <= k < att0.len() ==> #[trigger] att1[k] == att0[k]);
        assert(att1[att0.len() as int] == fresh);
        assert(final(store)@.users =~= old(store)@.users);
        assert(final(store)@.tokens =~= old(store)@.tokens);
        assert forall|a: int, b: int|
            #![trigger att1[a], att1[b]]
            0 <= a < b < att1.len() implies att1[a].id != att1[b].id by {
            if b < att0.len() {
                assert(att1[a] == att0[a]);
                assert(att1[b] == att0[b]);
            } else {
                assert(att1[b] == fresh);
                assert(att1[a] == att0[a]);
                assert(0 <= att0[a].id < old(store)@.next_attendance_id);
            }
        }
        let nid = final(store)@.next_attendance_id;
        assert forall|a: int| 0 <= a < att1.len() implies 0 <= (#[trigger] att1[a]).id < nid by {
            if a < att0.len() {
                assert(att1[a] == att0[a]);
                assert(0 <= att0[a].id < old(store)@.next_attendance_id);
            } else {
                assert(att1[a] == fresh);
            }
        }
    }
    Ok(fresh)
}

/// A user with no attendance record at all is signed in afresh: the call
/// can only take the new-record branch.
pub proof fn lemma_fresh_user_checks_in(att: Seq<Attendance>, uid: u128, now: i64)
    requires
        forall|k: int| 0 <= k < att.len() ==> (#[trigger] att[k]).user_uuid != uid,
    ensures
        !close_branch(att, uid, now),
{
    lemma_latest_attendance(att, uid);
    match latest_attendance_idx(att, uid) {
        Some(j) => {
            assert(att[j].user_uuid != uid);
        },
        None => {},
    }
}

/// The window boundary is inclusive: with an open latest record, a call
/// exactly at the window closes it, and a call one second later signs in
/// anew instead.
pub proof fn lemma_window_boundary(att: Seq<Attendance>, uid: u128, j: int, now: i64)
    requires
        latest_attendance_idx(att, uid) == Some(j),
        att[j].out_time is None,
    ensures
        now - att[j].in_time <= CHECKOUT_WINDOW_SECONDS ==> close_branch(att, uid, now),
        now - att[j].in_time > CHECKOUT_WINDOW_SECONDS ==> !close_branch(att, uid, now),
{
}

/// The attendance toggle across two calls, for a user with no record yet:
/// the first call checks in — it creates an open record at `t0` — and a
/// second call at most the window later checks that same record out,
/// keeping its identifier.
pub proof fn lemma_attendance_toggle(
    s0: crate::store::StoreView,
    s1: crate::store::StoreView,
    s2: crate::store::StoreView,
    r1: Result<Attendance, ApiError>,
    r2: Result<Attendance, ApiError>,
    uuid: Option<Seq<char>>,
    email: Option<Seq<char>>,
    alt_id_field: Option<Seq<char>>,
    alt_id_value: Option<Seq<char>>,
    uid: u128,
    t0: i64,
    t1: i64,
)
    requires
        log_attendance_post(s0, s1, r1, uuid, email, alt_id_field, alt_id_value, t0),
        log_attendance_post(s1, s2, r2, uuid, email, alt_id_field, alt_id_value, t1),
        resolve_identity_spec(s0.users, uuid, email, alt_id_field, alt_id_value) == Ok::<
            u128,
            crate::errors::IdentityError,
        >(uid),
        forall|k: int|
            0 <= k < s0.attendance.len() ==> (#[trigger] s0.attendance[k]).user_uuid != uid,
        t0 <= t1 <= t0 + CHECKOUT_WINDOW_SECONDS,
    ensures
        r1 matches Ok(a1) && a1.user_uuid == uid && a1.in_time == t0 && a1.out_time is None,
        r1 matches Ok(a1) && r2 matches Ok(a2) && a2.id == a1.id && a2.in_time == t0 && a2.out_time
            == Some(t1),
{
    lemma_fresh_user_checks_in(s0.attendance, uid, t0);
    let a1 = lemma_toggle_setup(s0, s1, r1, uuid, email, alt_id_field, alt_id_value, uid, t0);
    assert(close_branch(s1.attendance, uid, t1));
}

/// The stale-session rule across two calls, for a user with no record yet:
/// after the first call checks in at `t0`, a call strictly later than the
/// window signs in anew — a fresh record under a fresh identifier — and the
/// stale open session is left open, never auto-closed by this path.
pub proof fn lemma_attendance_stale_session(
    s0: crate::store::StoreView,
    s1: crate::store::StoreView,
    s2: crate::store::StoreView,
    r1: Result<Attendance, ApiError>,
    r2: Result<Attendance, ApiError>,
    uuid: Option<Seq<char>>,
    email: Option<Seq<char>>,
    alt_id_field: Option<Seq<char>>,
    alt_id_value: Option<Seq<char>>,
    uid: u128,
    t0: i64,
    t1: i64,
)
    requires
        log_attendance_post(s0, s1, r1, uuid, email, alt_id_field, alt_id_value, t0),
        log_attendance_post(s1, s2, r2, uuid, email, alt_id_field, alt_id_value, t1),
        resolve_identity_spec(s0.users, uuid, email, alt_id_field, alt_id_value) == Ok::<
            u128,
            crate::errors::IdentityError,
        >(uid),
        forall|k: int|
            0 <= k < s0.attendance.len() ==> (#[trigger] s0.attendance[k]).user_uuid != uid,
        t1 > t0 + CHECKOUT_WINDOW_SECONDS,
    ensures
        r1 matches Ok(a1) && r2 matches Ok(a2) && a2.id != a1.id && a2.in_time == t1 && a2.out_time
            is None,
        s2.attendance[s0.attendance.len() as int].user_uuid == uid,
        s2.attendance[s0.attendance.len() as int].out_time is None,
{
    lemma_fresh_user_checks_in(s0.attendance, uid, t0);
    let a1 = lemma_toggle_setup(s0, s1, r1, uuid, email, alt_id_field, alt_id_value, uid, t0);
    let n0 = s0.attendance.len() as int;
    assert(!close_branch(s1.attendance, uid, t1));
    let fresh2 = (Attendance {
        id: s1.next_attendance_id,
        user_uuid: uid,
        in_time: t1,
        out_time: None,
    });
    assert(r2 == Ok::<Attendance, ApiError>(fresh2));
    assert(s2.attendance == s1.attendance.push(fresh2));
    assert(s2.attendance[n0] == a1);
}

/// Shared first step of the two laws above: the first call on a fresh user
/// creates one open record, which is then the user's latest.
proof fn lemma_toggle_setup(
    s0: crate::store::StoreView,
    s1: crate::store::StoreView,
    r1: Result<Attendance, ApiError>,
    uuid: Option<Seq<char>>,
    email: Option<Seq<char>>,
    alt_id_field: Option<Seq<char>>,
    alt_id_value: Option<Seq<char>>,
    uid: u128,
    t0: i64,
) -> (a1: Attendance)
    requires
        log_attendance_post(s0, s1, r1, uuid, email, alt_id_field, alt_id_value, t0),
        resolve_identity_spec(s0.users, uuid, email, alt_id_field, alt_id_value) == Ok::<
            u128,
            crate::errors::IdentityError,
        >(uid),
        forall|k: int|
            0 <= k < s0.attendance.len() ==> (#[trigger] s0.attendance[k]).user_uuid != uid,
    ensures
        a1 == (Attendance {
            id: s0.next_attendance_id,
            user_uuid: uid,
            in_time: t0,
            out_time: None,
        }),
        r1 == Ok::<Attendance, ApiError>(a1),
        s1.attendance == s0.attendance.push(a1),
        s1.users == s0.users,
        s1.next_attendance_id == s0.next_attendance_id + 1,
        resolve_identity_spec(s1.users, uuid, email, alt_id_field, alt_id_value) == Ok::<
            u128,
            crate::errors::IdentityError,
        >(uid),
        latest_attendance_idx(s1.attendance, uid) == Some(s0.attendance.len() as int),
        s1.attendance[s0.attendance.len() as int] == a1,
{
    lemma_fresh_user_checks_in(s0.attendance, uid, t0);
    let a1 = (Attendance {
        id: s0.next_attendance_id,
        user_uuid: uid,
        in_time: t0,
        out_time: None,
    });
    let n0 = s0.attendance.len() as int;
    assert(s1.attendance[n0] == a1);
    lemma_latest_attendance(s1.attendance, uid);
    match latest_attendance_idx(s1.attendance, uid) {
        Some(j) => {
            if j != n0 {
                assert(s1.attendance[j] == s0.attendance[j]);
                assert(false);
            }
        },
        None => {
            assert(s1.attendance[n0].user_uuid == uid);
            assert(false);
        },
    }
    a1
}


/// The check-out branch of one attendance call, in general: when the
/// user's latest record is an open session, the call comes no earlier than
/// its check-in, and at most the window has elapsed, the call closes that
/// record in place — same identifier, kept check-in, check-out `now`,
/// which is then no earlier than the check-in — inserting nothing and
/// leaving every other record untouched. A call whose `now` precedes the
/// open record's check-in still closes it, but its check-out then precedes
/// its check-in; clocks are the caller's to keep ordered.
pub proof fn lemma_checkout_in_place(
    pre: crate::store::StoreView,
    post: crate::store::StoreView,
    r: Result<Attendance, ApiError>,
    uuid: Option<Seq<char>>,
    email: Option<Seq<char>>,
    alt_id_field: Option<Seq<char>>,
    alt_id_value: Option<Seq<char>>,
    uid: u128,
    j: int,
    now: i64,
)
    requires
        log_attendance_post(pre, post, r, uuid, email, alt_id_field, alt_id_value, now),
        resolve_identity_spec(pre.users, uuid, email, alt_id_field, alt_id_value) == Ok::<
            u128,
            crate::errors::IdentityError,
        >(uid),
        latest_attendance_idx(pre.attendance, uid) == Some(j),
        pre.attendance[j].out_time is None,
        pre.attendance[j].in_time <= now <= pre.attendance[j].in_time + CHECKOUT_WINDOW_SECONDS,
    ensures
        r matches Ok(a) && a.id == pre.attendance[j].id && a.in_time == pre.attendance[j].in_time
            && a.out_time == Some(now) && now >= a.in_time,
        post.attendance.len() == pre.attendance.len(),
        r matches Ok(a) && post.attendance == pre.attendance.update(j, a),
        forall|k: int|
            0 <= k < pre.attendance.len() && k != j ==> post.attendance[k] == pre.attendance[k],
{
    lemma_latest_attendance(pre.attendance, uid);
    assert(close_branch(pre.attendance, uid, now));
}

} // verus!
