//! The user collection: keyed by the stable chat identifier, sorted and
//! paged for listings.

use vstd::prelude::*;

use crate::errors::AppError;
use crate::pagination::{
    spec_page_items, spec_total_pages, total_pages, valid_page_params, validate_page_params,
};
use crate::text::clone_opt_string;
use crate::user::{ListUsersResult, Role, User};

verus! {

broadcast use vstd::seq_lib::group_seq_lib_default;

/// User records, unique by record id and by chat identifier.
#[derive(Debug)]
pub struct UsersStorage {
    users: Vec<User>,
}

impl View for UsersStorage {
    type V = Seq<User>;

    closed spec fn view(&self) -> Seq<User> {
        self.users@
    }
}

/// Whether some record in `s` carries the chat identifier.
pub open spec fn contains_telegram_id(s: Seq<User>, telegram_id: i64) -> bool {
    exists|i: int| 0 <= i < s.len() && s[i].telegram_id == telegram_id
}

/// Whether some record in `s` carries the record id.
pub open spec fn contains_user_id(s: Seq<User>, id: u128) -> bool {
    exists|i: int| 0 <= i < s.len() && s[i].id == id
}

/// The index of the record carrying the record id.
pub open spec fn user_idx_of(s: Seq<User>, id: u128) -> int {
    choose|i: int| 0 <= i < s.len() && s[i].id == id
}

/// The index of the record carrying the chat identifier.
pub open spec fn user_idx_of_telegram(s: Seq<User>, telegram_id: i64) -> int {
    choose|i: int| 0 <= i < s.len() && s[i].telegram_id == telegram_id
}

/// The stored record with only the mutable fields set from the update
/// argument: the record id, the chat identifier and the creation instant
/// stay as stored.
pub open spec fn merged_user(stored: User, user: User) -> User {
    User {
        id: stored.id,
        telegram_id: stored.telegram_id,
        first_name: user.first_name,
        last_name: user.last_name,
        username: user.username,
        language_code: user.language_code,
        role: user.role,
        created_at: stored.created_at,
        updated_at: user.updated_at,
        last_activity: user.last_activity,
    }
}

/// Whether a user passes the optional role filter.
pub open spec fn user_matches(u: User, f: Option<Role>) -> bool {
    f matches Some(role) ==> u.role == role
}

/// The users passing the filter, in store order.
pub open spec fn filtered_users(s: Seq<User>, f: Option<Role>) -> Seq<User> {
    s.filter(|u: User| user_matches(u, f))
}

/// Creation-time order between two users, in the requested direction.
pub open spec fn created_le(a: User, b: User, asc: bool) -> bool {
    if asc {
        a.created_at <= b.created_at
    } else {
        a.created_at >= b.created_at
    }
}

/// Inserts a user into a sorted run, after every record it does not precede;
/// equal keys keep their earlier records first.
pub open spec fn insert_by_created(s: Seq<User>, u: User, asc: bool) -> Seq<User>
    decreases s.len(),
{
    if s.len() == 0 {
        seq![u]
    } else if created_le(s[0], u, asc) {
        seq![s[0]] + insert_by_created(s.drop_first(), u, asc)
    } else {
        seq![u] + s
    }
}

/// Stable sort by creation time: each record inserted in turn.
pub open spec fn sort_by_created(s: Seq<User>, asc: bool) -> Seq<User>
    decreases s.len(),
{
    if s.len() == 0 {
        Seq::empty()
    } else {
        insert_by_created(sort_by_created(s.drop_last(), asc), s.last(), asc)
    }
}

/// Inserting grows a run by exactly one record.
pub proof fn lemma_insert_by_created_len(s: Seq<User>, u: User, asc: bool)
    ensures
        insert_by_created(s, u, asc).len() == s.len() + 1,
    decreases s.len(),
{
    if s.len() > 0 && created_le(s[0], u, asc) {
        lemma_insert_by_created_len(s.drop_first(), u, asc);
    }
}

/// Sorting keeps the number of records.
pub proof fn lemma_sort_by_created_len(s: Seq<User>, asc: bool)
    ensures
        sort_by_created(s, asc).len() == s.len(),
    decreases s.len(),
{
    if s.len() > 0 {
        lemma_sort_by_created_len(s.drop_last(), asc);
        lemma_insert_by_created_len(sort_by_created(s.drop_last(), asc), s.last(), asc);
    }
}

/// Ordered by creation time in the requested direction.
pub open spec fn sorted_by_created(s: Seq<User>, asc: bool) -> bool {
    forall|i: int, j: int|
        #![trigger s[i], s[j]]
        0 <= i <= j < s.len() ==> created_le(s[i], s[j], asc)
}

/// Inserting into a sorted run keeps it sorted and adds exactly the new
/// record.
pub proof fn lemma_insert_by_created_sorted(s: Seq<User>, u: User, asc: bool)
    requires
        sorted_by_created(s, asc),
    ensures
        sorted_by_created(insert_by_created(s, u, asc), asc),
        insert_by_created(s, u, asc).to_multiset() == s.to_multiset().insert(u),
    decreases s.len(),
{
    broadcast use vstd::seq_lib::group_to_multiset_ensures;

    if s.len() == 0 {
        assert(insert_by_created(s, u, asc) =~= Seq::<User>::empty().push(u));
        assert(Seq::<User>::empty().push(u).to_multiset() =~= s.to_multiset().insert(u));
    } else if created_le(s[0], u, asc) {
        let t = s.drop_first();
        assert forall|i: int, j: int|
            #![trigger t[i], t[j]]
            0 <= i <= j < t.len() implies created_le(t[i], t[j], asc) by {
            assert(t[i] == s[i + 1]);
            assert(t[j] == s[j + 1]);
        }
        lemma_insert_by_created_sorted(t, u, asc);
        let r2 = insert_by_created(t, u, asc);
        let r = seq![s[0]] + r2;
        assert(insert_by_created(s, u, asc) == r);
        assert forall|i: int, j: int|
            #![trigger r[i], r[j]]
            0 <= i <= j < r.len() implies created_le(r[i], r[j], asc) by {
            if i == 0 && j > 0 {
                let x = r2[j - 1];
                assert(r[j] == x);
                assert(r2.contains(x));
                assert(r2.to_multiset().count(x) > 0);
                if x == u {
                } else {
                    assert(t.to_multiset().count(x) > 0);
                    assert(t.contains(x));
                    let k = choose|k: int| 0 <= k < t.len() && t[k] == x;
                    assert(t[k] == s[k + 1]);
                    assert(created_le(s[0], s[k + 1], asc));
                }
            } else if i > 0 {
                assert(r[i] == r2[i - 1]);
                assert(r[j] == r2[j - 1]);
            }
        }
        vstd::seq_lib::lemma_multiset_commutative(seq![s[0]], r2);
        assert(seq![s[0]] =~= Seq::<User>::empty().push(s[0]));
        assert(s =~= seq![s[0]] + t);
        vstd::seq_lib::lemma_multiset_commutative(seq![s[0]], t);
        assert(r.to_multiset() =~= s.to_multiset().insert(u));
    } else {
        let r = seq![u] + s;
        assert(insert_by_created(s, u, asc) == r);
        assert forall|i: int, j: int|
            #![trigger r[i], r[j]]
            0 <= i <= j < r.len() implies created_le(r[i], r[j], asc) by {
            if i == 0 && j > 0 {
                assert(r[j] == s[j - 1]);
                assert(created_le(s[0], s[j - 1], asc));
            } else if i > 0 {
                assert(r[i] == s[i - 1]);
                assert(r[j] == s[j - 1]);
            }
        }
        vstd::seq_lib::lemma_multiset_commutative(seq![u], s);
        assert(seq![u] =~= Seq::<User>::empty().push(u));
        assert(r.to_multiset() =~= s.to_multiset().insert(u));
    }
}

/// The listing's sort is a sort: the result is ordered by creation time
/// in the requested direction and holds exactly the input records.
pub proof fn lemma_sort_by_created_ordered(s: Seq<User>, asc: bool)
    ensures
        sorted_by_created(sort_by_created(s, asc), asc),
        sort_by_created(s, asc).to_multiset() == s.to_multiset(),
    decreases s.len(),
{
    broadcast use vstd::seq_lib::group_to_multiset_ensures;

    if s.len() > 0 {
        lemma_sort_by_created_ordered(s.drop_last(), asc);
        lemma_insert_by_created_sorted(sort_by_created(s.drop_last(), asc), s.last(), asc);
        assert(s =~= s.drop_last().push(s.last()));
    }
}

/// Inserting at the first index whose record does not precede `u` is what
/// [`insert_by_created`] denotes.
proof fn lemma_insert_at(s: Seq<User>, u: User, asc: bool, j: int)
    requires
        0 <= j <= s.len(),
        forall|k: int| 0 <= k < j ==> created_le(#[trigger] s[k], u, asc),
        j < s.len() ==> !created_le(s[j], u, asc),
    ensures
        insert_by_created(s, u, asc) == s.insert(j, u),
    decreases s.len(),
{
    if s.len() == 0 {
        assert(insert_by_created(s, u, asc) =~= s.insert(0, u));
    } else if j == 0 {
        assert(insert_by_created(s, u, asc) =~= s.insert(0, u));
    } else {
        assert(created_le(s[0], u, asc));
        let t = s.drop_first();
        assert forall|k: int| 0 <= k < j - 1 implies created_le(#[trigger] t[k], u, asc) by {
            assert(t[k] == s[k + 1]);
        }
        lemma_insert_at(t, u, asc, j - 1);
        assert(seq![s[0]] + t.insert(j - 1, u) =~= s.insert(j, u));
    }
}

/// Copies the record order of `input` into a run sorted by creation time.
fn sorted_by_created_exec(input: &Vec<User>, asc: bool) -> (r: Vec<User>)
    ensures
        r@ == sort_by_created(input@, asc),
{
    let mut out: Vec<User> = Vec::new();
    let mut i: usize = 0;
    proof {
        assert(input@.subrange(0, 0) =~= Seq::<User>::empty());
    }
    while i < input.len()
        invariant
            0 <= i <= input@.len(),
            out@ == sort_by_created(input@.subrange(0, i as int), asc),
        decreases input@.len() - i,
    {
        let u = input[i].clone();
        let ghost prev = out@;
        let mut j: usize = 0;
        #[verifier::loop_isolation(true)]
        loop
            invariant_except_break
                0 <= j <= out@.len(),
                out@ == prev,
                forall|k: int| 0 <= k < j ==> created_le(#[trigger] out@[k], u, asc),
            ensures
                out@ == prev,
                0 <= j <= out@.len(),
                forall|k: int| 0 <= k < j ==> created_le(#[trigger] out@[k], u, asc),
                j < out@.len() ==> !created_le(out@[j as int], u, asc),
            decreases out@.len() - j,
        {
            if j == out.len() {
                break;
            }
            let keep_going = if asc {
                out[j].created_at <= u.created_at
            } else {
                out[j].created_at >= u.created_at
            };
            if !keep_going {
                break;
            }
            j = j + 1;
        }
        proof {
            lemma_insert_at(out@, u, asc, j as int);
        }
        out.insert(j, u);
        proof {
            assert(input@.subrange(0, i + 1).drop_last() =~= input@.subrange(0, i as int));
            assert(input@.subrange(0, i + 1).last() == input@[i as int]);
        }
        i = i + 1;
    }
    proof {
        assert(input@.subrange(0, input@.len() as int) =~= input@);
    }
    out
}

impl UsersStorage {
    /// Structural invariant: record ids and chat identifiers unique, every
    /// record well formed, and the count within the wire's 32-bit totals.
    pub open spec fn wf(self) -> bool {
        &&& forall|i: int, j: int|
            #![trigger self@[i], self@[j]]
            0 <= i < j < self@.len() ==> self@[i].id != self@[j].id
        &&& forall|i: int, j: int|
            #![trigger self@[i], self@[j]]
            0 <= i < j < self@.len() ==> self@[i].telegram_id != self@[j].telegram_id
        &&& forall|i: int| 0 <= i < self@.len() ==> (#[trigger] self@[i]).wf()
        &&& self@.len() <= 0xffff_ffff
    }

    /// An empty store.
    pub fn new() -> (r: Self)
        ensures
            r@ == Seq::<User>::empty(),
            r.wf(),
    {
        UsersStorage { users: Vec::new() }
    }

    /// How many records the store holds.
    pub fn len(&self) -> (r: usize)
        ensures
            r == self@.len(),
    {
        self.users.len()
    }

    /// Index of the record with this chat identifier, if any.
    fn find_index_by_telegram(&self, telegram_id: i64) -> (r: Option<usize>)
        ensures
            r matches Some(i) ==> i < self@.len() && self@[i as int].telegram_id == telegram_id,
            r is None ==> !contains_telegram_id(self@, telegram_id),
    {
        let mut i: usize = 0;
        while i < self.users.len()
            invariant
                0 <= i <= self@.len(),
                forall|k: int| 0 <= k < i ==> (#[trigger] self@[k]).telegram_id != telegram_id,
            decreases self@.len() - i,
        {
            if self.users[i].telegram_id == telegram_id {
                return Some(i);
            }
            i = i + 1;
        }
        None
    }

    /// Index of the record with this record id, if any.
    fn find_index_by_id(&self, id: u128) -> (r: Option<usize>)
        ensures
            r matches Some(i) ==> i < self@.len() && self@[i as int].id == id,
            r is None ==> !contains_user_id(self@, id),
    {
        let mut i: usize = 0;
        while i < self.users.len()
            invariant
                0 <= i <= self@.len(),
                forall|k: int| 0 <= k < i ==> (#[trigger] self@[k]).id != id,
            decreases self@.len() - i,
        {
            if self.users[i].id == id {
                return Some(i);
            }
            i = i + 1;
        }
        None
    }

    /// The record with this chat identifier, copied out.
    pub fn get(&self, telegram_id: i64) -> (r: Option<User>)
        ensures
            r is Some <==> contains_telegram_id(self@, telegram_id),
            r matches Some(u) ==> self@.contains(u) && u.telegram_id == telegram_id,
    {
        match self.find_index_by_telegram(telegram_id) {
            Some(i) => Some(self.users[i].clone()),
            None => None,
        }
    }

    /// Whether any stored user holds the admin role.
    pub fn has_admin(&self) -> (r: bool)
        ensures
            r == exists|i: int| 0 <= i < self@.len() && (#[trigger] self@[i]).role is Admin,
    {
        let mut i: usize = 0;
        while i < self.users.len()
            invariant
                0 <= i <= self@.len(),
                forall|k: int| 0 <= k < i ==> !((#[trigger] self@[k]).role is Admin),
            decreases self@.len() - i,
        {
            if self.users[i].role.as_i32() == 2 {
                return true;
            }
            i = i + 1;
        }
        false
    }

    /// Inserts a new record; a duplicate record id or chat identifier
    /// leaves the store unchanged.
    pub fn create(&mut self, user: &User) -> (r: Result<User, AppError>)
        requires
            user.wf(),
            old(self).wf(),
            old(self)@.len() < 0xffff_ffff,
        ensures
            final(self).wf(),
            r is Ok <==> !contains_user_id(old(self)@, user.id) && !contains_telegram_id(
                old(self)@,
                user.telegram_id,
            ),
            r matches Ok(u) ==> u == *user && final(self)@ == old(self)@.push(*user),
            r matches Err(e) ==> e is Internal && final(self)@ == old(self)@,
    {
        if self.find_index_by_id(user.id).is_some() {
            return Err(AppError::Internal);
        }
        if self.find_index_by_telegram(user.telegram_id).is_some() {
            return Err(AppError::Internal);
        }
        self.users.push(user.clone());
        Ok(user.clone())
    }

    /// Sets the mutable fields of the record with the same record id from
    /// the argument and returns the post-update record; an unknown id is
    /// reported as absent and changes nothing.
    ///
    /// The record id, the chat identifier and the creation instant are
    /// never modified: an update carrying stale values for them silently
    /// keeps what is stored.
    pub fn update(&mut self, user: &User) -> (r: Result<User, AppError>)
        requires
            user.wf(),
            old(self).wf(),
        ensures
            final(self).wf(),
            r is Ok <==> contains_user_id(old(self)@, user.id),
            r matches Ok(u) ==> ({
                let s = old(self)@;
                let k = user_idx_of(s, user.id);
                &&& u == merged_user(s[k], *user)
                &&& final(self)@ == s.update(k, u)
            }),
            r is Err ==> final(self)@ == old(self)@,
            r matches Err(e) ==> e is NotFound,
    {
        match self.find_index_by_id(user.id) {
            Some(i) => {
                proof {
                    let k = user_idx_of(self@, user.id);
                    assert(self@[k].id == user.id);
                    assert(k == i);
                }
                let merged = User {
                    id: self.users[i].id,
                    telegram_id: self.users[i].telegram_id,
                    first_name: user.first_name.clone(),
                    last_name: clone_opt_string(&user.last_name),
                    username: clone_opt_string(&user.username),
                    language_code: clone_opt_string(&user.language_code),
                    role: user.role,
                    created_at: self.users[i].created_at,
                    updated_at: user.updated_at,
                    last_activity: user.last_activity,
                };
                self.users.set(i, merged.clone());
                Ok(merged)
            },
            None => Err(AppError::NotFound),
        }
    }

    /// Removes the record with this chat identifier; an unknown identifier
    /// is reported as absent.
    pub fn delete(&mut self, telegram_id: i64) -> (r: Result<(), AppError>)
        requires
            old(self).wf(),
        ensures
            final(self).wf(),
            r is Ok <==> contains_telegram_id(old(self)@, telegram_id),
            r is Ok ==> final(self)@ == old(self)@.remove(
                user_idx_of_telegram(old(self)@, telegram_id),
            ),
            r matches Err(e) ==> e is NotFound && final(self)@ == old(self)@,
    {
        match self.find_index_by_telegram(telegram_id) {
            Some(i) => {
                proof {
                    let k = user_idx_of_telegram(self@, telegram_id);
                    assert(self@[k].telegram_id == telegram_id);
                    assert(k == i);
                    self@.remove_ensures(i as int);
                }
                self.users.remove(i);
                Ok(())
            },
            None => Err(AppError::NotFound),
        }
    }

    /// One page of the users under the role filter, sorted by creation
    /// time in the requested direction; records created at the same instant
    /// keep their store order.
    pub fn list_users(
        &self,
        page: u32,
        page_size: u32,
        role: Option<Role>,
        sort_by_created_asc: bool,
    ) -> (r: Result<ListUsersResult, AppError>)
        requires
            self.wf(),
        ensures
            r is Ok <==> valid_page_params(page, page_size),
            r matches Ok(l) ==> {
                let f = filtered_users(self@, role);
                let ss = sort_by_created(f, sort_by_created_asc);
                &&& l.users@ == spec_page_items(ss, page as nat, page_size as nat)
                &&& l.total_count == f.len()
                &&& l.current_page == page
                &&& l.total_pages == spec_total_pages(f.len(), page_size as nat)
            },
            r matches Err(e) ==> e is InvalidArgument,
    {
        match validate_page_params(page, page_size) {
            Err(e) => {
                return Err(e);
            },
            Ok(()) => {},
        }
        let ghost pred = |u: User| user_matches(u, role);
        let mut matching: Vec<User> = Vec::new();
        let mut i: usize = 0;
        proof {
            reveal(Seq::filter);
            assert(self@.subrange(0, 0).filter(pred) =~= Seq::<User>::empty());
        }
        while i < self.users.len()
            invariant
                0 <= i <= self@.len(),
                matching@ == self@.subrange(0, i as int).filter(pred),
                pred == (|u: User| user_matches(u, role)),
            decreases self@.len() - i,
        {
            let u = &self.users[i];
            let keep = match role {
                Some(r) => u.role.as_i32() == r.as_i32(),
                None => true,
            };
            proof {
                reveal(Seq::filter);
                assert(self@.subrange(0, i + 1).drop_last() =~= self@.subrange(0, i as int));
                assert(self@.subrange(0, i + 1).last() == self@[i as int]);
            }
            if keep {
                matching.push(u.clone());
            }
            i = i + 1;
        }
        proof {
            assert(self@.subrange(0, self@.len() as int) =~= self@);
            self@.lemma_filter_len(pred);
        }
        let sorted = sorted_by_created_exec(&matching, sort_by_created_asc);
        proof {
            lemma_sort_by_created_len(matching@, sort_by_created_asc);
        }
        let total: usize = sorted.len();
        let total_count: u32 = total as u32;
        let tp = total_pages(total_count, page_size);
        proof {
            assert((page - 1) * (page_size as int) <= 0xffff_ffff * 100) by (nonlinear_arith)
                requires
                    1 <= page <= 0xffff_ffffu64,
                    page_size <= 100,
            ;
        }
        let off64: u64 = (page as u64 - 1) * (page_size as u64);
        let mut page_items: Vec<User> = Vec::new();
        if off64 < total as u64 {
            let end64: u64 = if off64 + page_size as u64 > total as u64 {
                total as u64
            } else {
                off64 + page_size as u64
            };
            let off: usize = off64 as usize;
            let end: usize = end64 as usize;
            let mut j: usize = off;
            while j < end
                invariant
                    off <= j <= end <= sorted@.len(),
                    page_items@ == sorted@.subrange(off as int, j as int),
                decreases end - j,
            {
                page_items.push(sorted[j].clone());
                proof {
                    assert(sorted@.subrange(off as int, j + 1) =~= sorted@.subrange(
                        off as int,
                        j as int,
                    ).push(sorted@[j as int]));
                }
                j = j + 1;
            }
        }
        proof {
            let f = filtered_users(self@, role);
            let ss = sort_by_created(f, sort_by_created_asc);
            assert(f == matching@);
            assert(ss == sorted@);
            assert(page_items@ == spec_page_items(ss, page as nat, page_size as nat));
        }
        Ok(ListUsersResult {
            users: page_items,
            total_count,
            current_page: page,
            total_pages: tp,
        })
    }
}

} // verus!
