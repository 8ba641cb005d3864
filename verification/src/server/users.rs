//! The user-facing backend operations: registration, lookup, listing, role
//! management and removal.

use vstd::prelude::*;

use crate::errors::AppError;
use crate::ids::fresh_id;
use crate::pagination::{spec_page_items, spec_total_pages, valid_page_params};
use crate::storage::users_storage::{
    contains_telegram_id, contains_user_id, filtered_users, merged_user, sort_by_created,
    user_idx_of, user_idx_of_telegram,
};
use crate::storage::Storage;
use crate::user::{
    valid_language_code, valid_person_name, valid_username, ListUsersResult, Role, User,
};

verus! {

/// Whether a registration profile passes every validation rule.
pub open spec fn valid_profile(
    telegram_id: i64,
    first_name: String,
    last_name: Option<String>,
    username: Option<String>,
    language_code: Option<String>,
) -> bool {
    &&& telegram_id >= 0
    &&& valid_person_name(first_name@)
    &&& last_name matches Some(l) ==> valid_person_name(l@)
    &&& username matches Some(u) ==> valid_username(u@)
    &&& language_code matches Some(c) ==> valid_language_code(c@)
}

/// The record a fresh registration writes: the given profile, the given
/// role, and every timestamp set to the creation instant.
pub open spec fn new_user_record(
    id: u128,
    telegram_id: i64,
    first_name: String,
    last_name: Option<String>,
    username: Option<String>,
    language_code: Option<String>,
    role: Role,
    now: i64,
) -> User {
    User {
        id,
        telegram_id,
        first_name,
        last_name,
        username,
        language_code,
        role,
        created_at: now,
        updated_at: now,
        last_activity: now,
    }
}

/// The user with only the role replaced.
pub open spec fn with_role(u: User, role: Role) -> User {
    User { role, ..u }
}

/// Whether some stored user holds the admin role.
pub open spec fn spec_has_admin(s: Seq<User>) -> bool {
    exists|i: int| 0 <= i < s.len() && (#[trigger] s[i]).role is Admin
}

/// The backend service over the user collection.
#[derive(Debug)]
pub struct AppUsersService {
    pub db: Storage,
}

impl AppUsersService {
    pub fn new(db: Storage) -> (r: Self)
        ensures
            r.db == db,
    {
        AppUsersService { db }
    }

    /// Creates the user under a caller-chosen id, unless the chat
    /// identifier is already registered, in which case the stored record
    /// comes back unchanged.
    pub fn create_user_with_id(
        &mut self,
        id: u128,
        telegram_id: i64,
        first_name: String,
        last_name: Option<String>,
        username: Option<String>,
        language_code: Option<String>,
        now: i64,
    ) -> (r: Result<User, AppError>)
        requires
            old(self).db.wf(),
            old(self).db.users_storage@.len() < 0xffff_ffff,
        ensures
            final(self).db.wf(),
            final(self).db.posts_storage == old(self).db.posts_storage,
            r is Ok <==> contains_telegram_id(old(self).db.users_storage@, telegram_id) || (
            valid_profile(telegram_id, first_name, last_name, username, language_code)
                && !contains_user_id(old(self).db.users_storage@, id)),
            r is Err ==> final(self).db.users_storage@ == old(self).db.users_storage@,
            r matches Err(e) ==> ({
                let s = old(self).db.users_storage@;
                &&& !contains_telegram_id(s, telegram_id)
                &&& e is InvalidArgument <==> !valid_profile(
                    telegram_id,
                    first_name,
                    last_name,
                    username,
                    language_code,
                )
                &&& e is InvalidArgument || e is Internal
            }),
            r matches Ok(u) ==> ({
                let s = old(self).db.users_storage@;
                let t = final(self).db.users_storage@;
                if contains_telegram_id(s, telegram_id) {
                    &&& s.contains(u)
                    &&& u.telegram_id == telegram_id
                    &&& t == s
                } else {
                    &&& u == new_user_record(
                        id,
                        telegram_id,
                        first_name,
                        last_name,
                        username,
                        language_code,
                        Role::Guest,
                        now,
                    )
                    &&& t == s.push(u)
                }
            }),
    {
        if let Some(existing) = self.db.users_storage.get(telegram_id) {
            return Ok(existing);
        }
        let built = User::builder()
            .id(id)
            .telegram_id(telegram_id)
            .first_name(first_name)
            .last_name(last_name)
            .username(username)
            .language_code(language_code)
            .created_at(now)
            .updated_at(now)
            .last_activity(now)
            .build();
        let user = match built {
            Ok(u) => u,
            Err(e) => {
                return Err(e);
            },
        };
        self.db.users_storage.create(&user)
    }

    /// Creates the user under a fresh random id; for a new, valid profile
    /// the id draw alone decides between success and an internal id
    /// collision. For every value the draw could take,
    /// [`Self::create_user_with_id`] fixes the outcome exactly.
    pub fn create_user(
        &mut self,
        telegram_id: i64,
        first_name: String,
        last_name: Option<String>,
        username: Option<String>,
        language_code: Option<String>,
        now: i64,
    ) -> (r: Result<User, AppError>)
        requires
            old(self).db.wf(),
            old(self).db.users_storage@.len() < 0xffff_ffff,
        ensures
            final(self).db.wf(),
            final(self).db.posts_storage == old(self).db.posts_storage,
            contains_telegram_id(old(self).db.users_storage@, telegram_id) ==> r is Ok,
            r is Err ==> final(self).db.users_storage@ == old(self).db.users_storage@,
            r matches Err(e) ==> ({
                let s = old(self).db.users_storage@;
                &&& !contains_telegram_id(s, telegram_id)
                &&& e is InvalidArgument <==> !valid_profile(
                    telegram_id,
                    first_name,
                    last_name,
                    username,
                    language_code,
                )
                &&& e is InvalidArgument || e is Internal
            }),
            r matches Ok(u) ==> ({
                let s = old(self).db.users_storage@;
                let t = final(self).db.users_storage@;
                if contains_telegram_id(s, telegram_id) {
                    &&& s.contains(u)
                    &&& u.telegram_id == telegram_id
                    &&& t == s
                } else {
                    &&& u == new_user_record(
                        u.id,
                        telegram_id,
                        first_name,
                        last_name,
                        username,
                        language_code,
                        Role::Guest,
                        now,
                    )
                    &&& t == s.push(u)
                }
            }),
    {
        let id = fresh_id();
        self.create_user_with_id(
            id,
            telegram_id,
            first_name,
            last_name,
            username,
            language_code,
            now,
        )
    }

    /// Registers the caller: an already known chat identifier comes back as
    /// the stored record; a new one is created, and the very first user to
    /// ever register is promoted to admin on the spot, while later
    /// newcomers start as guests.
    ///
    /// The boolean is true exactly when the record was newly created.
    pub fn register_user(
        &mut self,
        telegram_id: i64,
        first_name: String,
        last_name: Option<String>,
        username: Option<String>,
        language_code: Option<String>,
        now: i64,
    ) -> (r: Result<(User, bool), AppError>)
        requires
            old(self).db.wf(),
            old(self).db.users_storage@.len() < 0xffff_ffff,
        ensures
            final(self).db.wf(),
            final(self).db.posts_storage == old(self).db.posts_storage,
            contains_telegram_id(old(self).db.users_storage@, telegram_id) ==> r is Ok,
            r is Err ==> final(self).db.users_storage@ == old(self).db.users_storage@,
            r matches Err(e) ==> ({
                let s = old(self).db.users_storage@;
                &&& !contains_telegram_id(s, telegram_id)
                &&& e is InvalidArgument <==> !valid_profile(
                    telegram_id,
                    first_name,
                    last_name,
                    username,
                    language_code,
                )
                &&& e is InvalidArgument || e is Internal
            }),
            r matches Ok(p) ==> ({
                let s = old(self).db.users_storage@;
                let t = final(self).db.users_storage@;
                if contains_telegram_id(s, telegram_id) {
                    &&& s.contains(p.0)
                    &&& p.0.telegram_id == telegram_id
                    &&& !p.1
                    &&& t == s
                } else {
                    &&& p.1
                    &&& p.0 == new_user_record(
                        p.0.id,
                        telegram_id,
                        first_name,
                        last_name,
                        username,
                        language_code,
                        if spec_has_admin(s) {
                            Role::Guest
                        } else {
                            Role::Admin
                        },
                        now,
                    )
                    &&& t == s.push(p.0)
                }
            }),
    {
        let had_admin = self.db.users_storage.has_admin();
        if let Some(existing) = self.db.users_storage.get(telegram_id) {
            return Ok((existing, false));
        }
        let created = match self.create_user(
            telegram_id,
            first_name,
            last_name,
            username,
            language_code,
            now,
        ) {
            Ok(u) => u,
            Err(e) => {
                return Err(e);
            },
        };
        if had_admin {
            Ok((created, true))
        } else {
            let mut promoted = created;
            promoted.role = Role::Admin;
            let ghost pushed = self.db.users_storage@;
            proof {
                assert(pushed[pushed.len() - 1].id == promoted.id);
                assert(contains_user_id(pushed, promoted.id));
                let k = user_idx_of(pushed, promoted.id);
                assert(pushed[k].id == promoted.id);
                assert(k == pushed.len() - 1);
            }
            let updated = match self.db.users_storage.update(&promoted) {
                Ok(u) => u,
                Err(e) => {
                    return Err(e);
                },
            };
            proof {
                assert(self.db.users_storage@ =~= old(self).db.users_storage@.push(updated));
            }
            Ok((updated, true))
        }
    }

    /// The user with this chat identifier, if registered.
    pub fn get_user(&self, user_id: i64) -> (r: Option<User>)
        ensures
            r is Some <==> contains_telegram_id(self.db.users_storage@, user_id),
            r matches Some(u) ==> self.db.users_storage@.contains(u) && u.telegram_id
                == user_id,
    {
        self.db.users_storage.get(user_id)
    }

    /// One page of the user listing; see the store's listing contract.
    pub fn list_users(
        &self,
        page: u32,
        page_size: u32,
        role: Option<Role>,
        sort_by_created_asc: bool,
    ) -> (r: Result<ListUsersResult, AppError>)
        requires
            self.db.wf(),
        ensures
            r is Ok <==> valid_page_params(page, page_size),
            r matches Ok(l) ==> ({
                let f = filtered_users(self.db.users_storage@, role);
                let ss = sort_by_created(f, sort_by_created_asc);
                &&& l.users@ == spec_page_items(ss, page as nat, page_size as nat)
                &&& l.total_count == f.len()
                &&& l.current_page == page
                &&& l.total_pages == spec_total_pages(f.len(), page_size as nat)
            }),
            r matches Err(e) ==> e is InvalidArgument,
    {
        self.db.users_storage.list_users(page, page_size, role, sort_by_created_asc)
    }

    /// Sets the mutable fields of a stored record, keyed by its record id,
    /// and returns the post-update record; the record id, the chat
    /// identifier and the creation instant are never modified — stale
    /// values for them in the argument are silently kept as stored.
    pub fn update_user(&mut self, user: &User) -> (r: Result<User, AppError>)
        requires
            user.wf(),
            old(self).db.wf(),
        ensures
            final(self).db.wf(),
            final(self).db.posts_storage == old(self).db.posts_storage,
            r is Ok <==> contains_user_id(old(self).db.users_storage@, user.id),
            r matches Ok(u) ==> ({
                let s = old(self).db.users_storage@;
                let k = user_idx_of(s, user.id);
                &&& u == merged_user(s[k], *user)
                &&& final(self).db.users_storage@ == s.update(k, u)
            }),
            r is Err ==> final(self).db.users_storage@ == old(self).db.users_storage@,
            r matches Err(e) ==> e is NotFound,
    {
        self.db.users_storage.update(user)
    }

    /// Removes the user with this chat identifier.
    pub fn delete_user(&mut self, user_id: i64) -> (r: Result<(), AppError>)
        requires
            old(self).db.wf(),
        ensures
            final(self).db.wf(),
            final(self).db.posts_storage == old(self).db.posts_storage,
            r is Ok <==> contains_telegram_id(old(self).db.users_storage@, user_id),
            r is Ok ==> final(self).db.users_storage@ == old(self).db.users_storage@.remove(
                user_idx_of_telegram(old(self).db.users_storage@, user_id),
            ),
            r is Err ==> final(self).db.users_storage@ == old(self).db.users_storage@,
            r matches Err(e) ==> e is NotFound,
    {
        self.db.users_storage.delete(user_id)
    }

    /// Sets the stored user's role, leaving the rest of the record as it
    /// stands.
    pub fn set_role(&mut self, telegram_id: i64, role: Role) -> (r: Result<User, AppError>)
        requires
            old(self).db.wf(),
        ensures
            final(self).db.wf(),
            final(self).db.posts_storage == old(self).db.posts_storage,
            r is Ok <==> contains_telegram_id(old(self).db.users_storage@, telegram_id),
            r matches Ok(u) ==> ({
                let s = old(self).db.users_storage@;
                let k = user_idx_of_telegram(s, telegram_id);
                &&& u == with_role(s[k], role)
                &&& final(self).db.users_storage@ == s.update(k, u)
            }),
            r is Err ==> final(self).db.users_storage@ == old(self).db.users_storage@,
            r matches Err(e) ==> e is NotFound,
    {
        let found = match self.db.users_storage.get(telegram_id) {
            Some(u) => u,
            None => {
                return Err(AppError::NotFound);
            },
        };
        let ghost orig = found;
        let mut changed = found;
        changed.role = role;
        proof {
            let s = self.db.users_storage@;
            assert(s.contains(orig));
            let j = choose|j: int| 0 <= j < s.len() && s[j] == orig;
            assert(s[j].id == changed.id);
            assert(contains_user_id(s, changed.id));
            let k2 = user_idx_of(s, changed.id);
            assert(s[k2].id == changed.id);
            assert(k2 == j);
            let k = user_idx_of_telegram(s, telegram_id);
            assert(s[k].telegram_id == telegram_id);
            assert(k == j);
        }
        match self.db.users_storage.update(&changed) {
            Ok(updated) => Ok(updated),
            Err(e) => Err(e),
        }
    }

    /// Promotes the user to editor.
    pub fn make_editor(&mut self, telegram_id: i64) -> (r: Result<User, AppError>)
        requires
            old(self).db.wf(),
        ensures
            final(self).db.wf(),
            final(self).db.posts_storage == old(self).db.posts_storage,
            r is Ok <==> contains_telegram_id(old(self).db.users_storage@, telegram_id),
            r matches Ok(u) ==> ({
                let s = old(self).db.users_storage@;
                let k = user_idx_of_telegram(s, telegram_id);
                &&& u == with_role(s[k], Role::Editor)
                &&& final(self).db.users_storage@ == s.update(k, u)
            }),
            r is Err ==> final(self).db.users_storage@ == old(self).db.users_storage@,
            r matches Err(e) ==> e is NotFound,
    {
        self.set_role(telegram_id, Role::Editor)
    }

    /// Demotes the user to guest.
    pub fn make_guest(&mut self, telegram_id: i64) -> (r: Result<User, AppError>)
        requires
            old(self).db.wf(),
        ensures
            final(self).db.wf(),
            final(self).db.posts_storage == old(self).db.posts_storage,
            r is Ok <==> contains_telegram_id(old(self).db.users_storage@, telegram_id),
            r matches Ok(u) ==> ({
                let s = old(self).db.users_storage@;
                let k = user_idx_of_telegram(s, telegram_id);
                &&& u == with_role(s[k], Role::Guest)
                &&& final(self).db.users_storage@ == s.update(k, u)
            }),
            r is Err ==> final(self).db.users_storage@ == old(self).db.users_storage@,
            r matches Err(e) ==> e is NotFound,
    {
        self.set_role(telegram_id, Role::Guest)
    }
}

} // verus!
