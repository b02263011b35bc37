//! Plain row lookups over the store: listings and filters.

use vstd::prelude::*;

use vstd::string::StrSliceExecFns;

use crate::store::Store;
use crate::tables::Attendance;
use crate::tables::User;
use crate::tables::UserView;

verus! {

/// Whether `needle` occurs as a contiguous run of characters inside `hay`.
pub open spec fn contains_sub(hay: Seq<char>, needle: Seq<char>) -> bool {
    exists|k: int|
        0 <= k && k + needle.len() <= hay.len() && (#[trigger] hay.subrange(k, k + needle.len()))
            == needle
}

/// Whether `needle` stands at position `k` of `hay`.
fn match_at(hay: &str, needle: &str, k: usize) -> (r: bool)
    requires
        k + needle@.len() <= hay@.len(),
        hay@.len() <= usize::MAX,
    ensures
        r == (hay@.subrange(k as int, k + needle@.len()) == needle@),
{
    let n = needle.unicode_len();
    let mut t: usize = 0;
    while t < n
        invariant
            k + n <= hay@.len(),
            hay@.len() <= usize::MAX,
            n == needle@.len(),
            0 <= t <= n,
            forall|j: int| 0 <= j < t ==> hay@[k + j] == needle@[j],
        decreases n - t,
    {
        if hay.get_char(k + t) != needle.get_char(t) {
            proof {
                assert(hay@.subrange(k as int, k + needle@.len())[t as int] == hay@[k + t]);
            }
            return false;
        }
        t += 1;
    }
    proof {
        assert(hay@.subrange(k as int, k + needle@.len()) =~= needle@);
    }
    true
}

/// Whether one text occurs inside another, as the name search uses it.
pub fn str_contains(hay: &String, needle: &String) -> (r: bool)
    ensures
        r == contains_sub(hay@, needle@),
{
    let hn = hay.as_str().unicode_len();
    let nn = needle.as_str().unicode_len();
    if nn > hn {
        return false;
    }
    if nn == 0 {
        proof {
            assert(hay@.subrange(0, 0 + needle@.len() as int) =~= needle@);
            assert(contains_sub(hay@, needle@));
        }
        return true;
    }
    let mut k: usize = 0;
    while k <= hn - nn
        invariant
            nn <= hn,
            hn == hay@.len(),
            nn == needle@.len(),
            0 <= k <= hn - nn + 1,
            1 <= nn,
            forall|j: int| 0 <= j < k ==> (#[trigger] hay@.subrange(j, j + nn)) != needle@,
        decreases hn - k,
    {
        if match_at(hay.as_str(), needle.as_str(), k) {
            assert(hay@.subrange(k as int, k + nn) == needle@);
            return true;
        }
        k += 1;
    }
    proof {
        assert forall|k2: int| 0 <= k2 && k2 + needle@.len() <= hay@.len() implies (
        #[trigger] hay@.subrange(k2, k2 + needle@.len())) != needle@ by {
            assert(k2 < k);
        }
    }
    false
}

/// The user rows whose full name is exactly `name`, in store order.
pub open spec fn users_named(users: Seq<UserView>, name: Seq<char>) -> Seq<UserView>
    decreases users.len(),
{
    if users.len() == 0 {
        Seq::empty()
    } else {
        let rest = users_named(users.drop_last(), name);
        if users.last().full_name == name {
            rest.push(users.last())
        } else {
            rest
        }
    }
}

/// The user rows whose full name contains `name`, in store order — the
/// wildcard-on-both-sides search.
pub open spec fn users_name_search(users: Seq<UserView>, name: Seq<char>) -> Seq<UserView>
    decreases users.len(),
{
    if users.len() == 0 {
        Seq::empty()
    } else {
        let rest = users_name_search(users.drop_last(), name);
        if contains_sub(users.last().full_name, name) {
            rest.push(users.last())
        } else {
            rest
        }
    }
}

/// The attendance rows of one user, in store order.
pub open spec fn attendance_of(att: Seq<Attendance>, uid: u128) -> Seq<Attendance>
    decreases att.len(),
{
    if att.len() == 0 {
        Seq::empty()
    } else {
        let rest = attendance_of(att.drop_last(), uid);
        if att.last().user_uuid == uid {
            rest.push(att.last())
        } else {
            rest
        }
    }
}

/// The attendance rows checked in at exactly this instant, in store order
/// — the date filter matches one timestamp, not a calendar day.
pub open spec fn attendance_on(att: Seq<Attendance>, date: i64) -> Seq<Attendance>
    decreases att.len(),
{
    if att.len() == 0 {
        Seq::empty()
    } else {
        let rest = attendance_on(att.drop_last(), date);
        if att.last().in_time == date {
            rest.push(att.last())
        } else {
            rest
        }
    }
}

impl Store {
    /// Every user row, in store order.
    pub fn all_users(&self) -> (r: Vec<User>)
        ensures
            r.deep_view() == self@.users,
    {
        let mut r: Vec<User> = Vec::new();
        let mut i: usize = 0;
        while i < self.users.len()
            invariant
                0 <= i <= self@.users.len(),
                r.deep_view() =~~= self@.users.subrange(0, i as int),
            decreases self@.users.len() - i,
        {
            proof {
                assert(self@.users.subrange(0, i + 1) =~= self@.users.subrange(
                    0,
                    i as int,
                ).push(self@.users[i as int]));
            }
            r.push(self.users[i].duplicate());
            i += 1;
        }
        proof {
            assert(r.deep_view() =~~= self@.users);
        }
        r
    }

    /// The user rows whose full name is exactly `full_name`.
    pub fn users_by_full_name_match(&self, full_name: &String) -> (r: Vec<User>)
        ensures
            r.deep_view() == users_named(self@.users, full_name@),
    {
        let mut r: Vec<User> = Vec::new();
        let mut i: usize = 0;
        while i < self.users.len()
            invariant
                0 <= i <= self@.users.len(),
                r.deep_view() =~~= users_named(self@.users.take(i as int), full_name@),
            decreases self@.users.len() - i,
        {
            proof {
                assert(self@.users.take(i + 1).drop_last() =~= self@.users.take(i as int));
                assert(self@.users.take(i + 1).last() == self@.users[i as int]);
            }
            if self.users[i].full_name == *full_name {
                r.push(self.users[i].duplicate());
            }
            i += 1;
        }
        proof {
            assert(self@.users.take(self@.users.len() as int) =~= self@.users);
        }
        r
    }

    /// The user rows whose full name contains `full_name`.
    pub fn users_by_full_name_search(&self, full_name: &String) -> (r: Vec<User>)
        ensures
            r.deep_view() == users_name_search(self@.users, full_name@),
    {
        let mut r: Vec<User> = Vec::new();
        let mut i: usize = 0;
        while i < self.users.len()
            invariant
                0 <= i <= self@.users.len(),
                r.deep_view() =~~= users_name_search(self@.users.take(i as int), full_name@),
            decreases self@.users.len() - i,
        {
            proof {
                assert(self@.users.take(i + 1).drop_last() =~= self@.users.take(i as int));
                assert(self@.users.take(i + 1).last() == self@.users[i as int]);
            }
            if str_contains(&self.users[i].full_name, full_name) {
                r.push(self.users[i].duplicate());
            }
            i += 1;
        }
        proof {
            assert(self@.users.take(self@.users.len() as int) =~= self@.users);
        }
        r
    }

    /// Every attendance row, in store order.
    pub fn all_attendance(&self) -> (r: Vec<Attendance>)
        ensures
            r@ == self@.attendance,
    {
        let mut r: Vec<Attendance> = Vec::new();
        let mut i: usize = 0;
        while i < self.attendance.len()
            invariant
                0 <= i <= self@.attendance.len(),
                r@ =~= self@.attendance.subrange(0, i as int),
            decreases self@.attendance.len() - i,
        {
            r.push(self.attendance[i]);
            i += 1;
        }
        proof {
            assert(r@ =~= self@.attendance);
        }
        r
    }

    /// The attendance rows of one user.
    pub fn attendance_for_user(&self, uid: u128) -> (r: Vec<Attendance>)
        ensures
            r@ == attendance_of(self@.attendance, uid),
    {
        let mut r: Vec<Attendance> = Vec::new();
        let mut i: usize = 0;
        while i < self.attendance.len()
            invariant
                0 <= i <= self@.attendance.len(),
                r@ =~= attendance_of(self@.attendance.take(i as int), uid),
            decreases self@.attendance.len() - i,
        {
            proof {
                assert(self@.attendance.take(i + 1).drop_last() =~= self@.attendance.take(i as int));
                assert(self@.attendance.take(i + 1).last() == self@.attendance[i as int]);
            }
            if self.attendance[i].user_uuid == uid {
                r.push(self.attendance[i]);
            }
            i += 1;
        }
        proof {
            assert(self@.attendance.take(self@.attendance.len() as int) =~= self@.attendance);
        }
        r
    }

    /// The attendance rows checked in at exactly this instant.
    pub fn attendance_by_date(&self, date: i64) -> (r: Vec<Attendance>)
        ensures
            r@ == attendance_on(self@.attendance, date),
    {
        let mut r: Vec<Attendance> = Vec::new();
        let mut i: usize = 0;
        while i < self.attendance.len()
            invariant
                0 <= i <= self@.attendance.len(),
                r@ =~= attendance_on(self@.attendance.take(i as int), date),
            decreases self@.attendance.len() - i,
        {
            proof {
                assert(self@.attendance.take(i + 1).drop_last() =~= self@.attendance.take(i as int));
                assert(self@.attendance.take(i + 1).last() == self@.attendance[i as int]);
            }
            if self.attendance[i].in_time == date {
                r.push(self.attendance[i]);
            }
            i += 1;
        }
        proof {
            assert(self@.attendance.take(self@.attendance.len() as int) =~= self@.attendance);
        }
        r
    }
}

impl User {
    /// The attendance rows of this user, as the row's field resolver lists
    /// them.
    pub fn attendance(&self, store: &Store) -> (r: Vec<Attendance>)
        ensures
            r@ == attendance_of(store@.attendance, self.uuid),
    {
        store.attendance_for_user(self.uuid)
    }
}

} // verus!
