//! The store: the single source of truth for users and posts.

pub mod posts_storage;
pub mod users_storage;

use vstd::prelude::*;

use crate::storage::posts_storage::PostsStorage;
use crate::storage::users_storage::UsersStorage;

verus! {

/// Both collections together, as the backend owns them.
#[derive(Debug)]
pub struct Storage {
    pub users_storage: UsersStorage,
    pub posts_storage: PostsStorage,
}

impl Storage {
    /// Both collections valid.
    pub open spec fn wf(self) -> bool {
        &&& self.users_storage.wf()
        &&& self.posts_storage.wf()
    }

    /// An empty store.
    pub fn new() -> (r: Self)
        ensures
            r.wf(),
            r.users_storage@ == Seq::<crate::user::User>::empty(),
            r.posts_storage@ == Seq::<crate::post::Post>::empty(),
    {
        Storage { users_storage: UsersStorage::new(), posts_storage: PostsStorage::new() }
    }

    /// The user collection.
    pub fn users(&self) -> (r: &UsersStorage)
        ensures
            r == &self.users_storage,
    {
        &self.users_storage
    }

    /// The post collection.
    pub fn posts(&self) -> (r: &PostsStorage)
        ensures
            r == &self.posts_storage,
    {
        &self.posts_storage
    }
}

} // verus!
