//! The publish coordinator and the scheduler's per-cycle decisions.
//!
//! A cycle rescans the whole store for due pending posts, flips each one to
//! `Published` first, and only then hands the delivery jobs out. Delivery
//! itself is outside work: the caller performs it and reports each
//! channel's outcome back to [`delivery_outcome`]. The social-network
//! failure is swallowed while the chat-broadcast failure is the
//! operation's result — an asymmetry this module preserves on purpose.

use vstd::prelude::*;

use crate::errors::AppError;
use crate::post::{spec_publish_now, Post, Status};
use crate::server::posts::AppPostService;
use crate::storage::posts_storage::{contains_post_id, post_idx_of};

verus! {

broadcast use vstd::seq_lib::group_seq_lib_default;

/// What one channel is asked to deliver: the photo reference if the post
/// carries one, else the video reference, else the plain text.
#[derive(Debug, PartialEq)]
pub enum ChannelMedia {
    Photo(String),
    Video(String),
    Text,
}

/// The photo-over-video-over-text precedence.
pub open spec fn spec_channel_media(photo: Option<String>, video: Option<String>) -> ChannelMedia {
    match photo {
        Some(p) => ChannelMedia::Photo(p),
        None => match video {
            Some(v) => ChannelMedia::Video(v),
            None => ChannelMedia::Text,
        },
    }
}

/// Picks the attachment for one channel from its two optional references.
pub fn channel_media(photo: &Option<String>, video: &Option<String>) -> (r: ChannelMedia)
    ensures
        r == spec_channel_media(*photo, *video),
{
    match photo {
        Some(p) => ChannelMedia::Photo(p.clone()),
        None => match video {
            Some(v) => ChannelMedia::Video(v.clone()),
            None => ChannelMedia::Text,
        },
    }
}

/// One post's delivery work: the published record and what each channel
/// receives.
#[derive(Debug, PartialEq)]
pub struct PublishJob {
    pub post: Post,
    pub vk: ChannelMedia,
    pub tg: ChannelMedia,
}

/// A pending post whose scheduled instant has passed.
pub open spec fn is_due(p: Post, now: i64) -> bool {
    &&& p.status is Pending
    &&& p.publish_datetime matches Some(d) && d <= now
}

/// The delivery job for a freshly published post.
pub open spec fn spec_job_for(p: Post) -> PublishJob {
    PublishJob {
        post: p,
        vk: spec_channel_media(p.vk_photo_file_id, p.vk_video_file_id),
        tg: spec_channel_media(p.tg_photo_file_id, p.tg_video_file_id),
    }
}

/// The ids of every due pending post, in store order: exactly the posts
/// still in `Pending` whose publish instant is at or before now.
pub fn due_post_ids(svc: &AppPostService, now: i64) -> (r: Vec<u128>)
    ensures
        r@ == svc.db.posts_storage@.filter(|p: Post| is_due(p, now)).map_values(
            |p: Post| p.id,
        ),
{
    let ghost pred = |p: Post| is_due(p, now);
    let all = svc.db.posts_storage.all();
    let mut out: Vec<u128> = Vec::new();
    let mut i: usize = 0;
    proof {
        reveal(Seq::filter);
        assert(all@.subrange(0, 0).filter(pred) =~= Seq::<Post>::empty());
        assert(out@ =~= all@.subrange(0, 0).filter(pred).map_values(|p: Post| p.id));
    }
    while i < all.len()
        invariant
            0 <= i <= all@.len(),
            out@ == all@.subrange(0, i as int).filter(pred).map_values(|p: Post| p.id),
        decreases all@.len() - i,
    {
        let p = &all[i];
        let due = match (p.status.as_i32() == 1, p.publish_datetime) {
            (true, Some(d)) => d <= now,
            _ => false,
        };
        proof {
            reveal(Seq::filter);
            assert(all@.subrange(0, i + 1).drop_last() =~= all@.subrange(0, i as int));
            assert(all@.subrange(0, i + 1).last() == all@[i as int]);
            if pred(all@[i as int]) {
                assert(all@.subrange(0, i + 1).filter(pred).map_values(|p: Post| p.id)
                    =~= all@.subrange(0, i as int).filter(pred).map_values(|p: Post| p.id).push(
                    all@[i as int].id,
                ));
            }
        }
        if due {
            out.push(p.id);
        }
        i = i + 1;
    }
    proof {
        assert(all@.subrange(0, all@.len() as int) =~= all@);
    }
    out
}

/// The scheduler's due-publish path for one post, re-fetched from the
/// store rather than trusted from a cached cycle snapshot.
///
/// A post that is gone, no longer `Pending`, or not yet due yields no job
/// and changes nothing — publishing the same post twice cannot
/// double-send. A due pending post is flipped to `Published` in the store
/// before its delivery job is handed back.
pub fn publish_due(svc: &mut AppPostService, post_id: u128, now: i64) -> (r: Option<PublishJob>)
    requires
        old(svc).db.wf(),
    ensures
        final(svc).db.wf(),
        final(svc).db.users_storage == old(svc).db.users_storage,
        ({
            let s = old(svc).db.posts_storage@;
            if contains_post_id(s, post_id) && is_due(s[post_idx_of(s, post_id)], now) {
                let published = spec_publish_now(s[post_idx_of(s, post_id)], now);
                &&& r == Some(spec_job_for(published))
                &&& final(svc).db.posts_storage@ == s.update(
                    post_idx_of(s, post_id),
                    published,
                )
            } else {
                &&& r is None
                &&& final(svc).db.posts_storage@ == s
            }
        }),
{
    let fetched = match svc.get_post(post_id) {
        Some(p) => p,
        None => {
            return None;
        },
    };
    proof {
        let s = svc.db.posts_storage@;
        assert(s.contains(fetched));
        let j = choose|j: int| 0 <= j < s.len() && s[j] == fetched;
        let k = post_idx_of(s, post_id);
        assert(s[k].id == post_id);
        assert(k == j);
    }
    let due = match (fetched.status.as_i32() == 1, fetched.publish_datetime) {
        (true, Some(d)) => d <= now,
        _ => false,
    };
    if !due {
        return None;
    }
    let published = svc.publish_now(post_id, now).unwrap();
    let vk = channel_media(&published.vk_photo_file_id, &published.vk_video_file_id);
    let tg = channel_media(&published.tg_photo_file_id, &published.tg_video_file_id);
    Some(PublishJob { post: published, vk, tg })
}

/// The per-post outcome policy after both channels were attempted: a
/// social-network failure is swallowed, so the chat-broadcast result alone
/// is the operation's result.
pub fn delivery_outcome(vk_ok: bool, tg_ok: bool) -> (r: Result<(), AppError>)
    ensures
        r is Ok <==> tg_ok,
        r matches Err(e) ==> e is Internal,
{
    if tg_ok {
        Ok(())
    } else {
        Err(AppError::Internal)
    }
}

/// Due publication is idempotent at the selection boundary: once a post
/// has been published, it is no longer pending, so no later cycle's
/// due-selection picks it again, whatever instant that cycle runs at.
pub proof fn lemma_due_publish_idempotent(p: Post, now: i64, later: i64)
    ensures
        !is_due(spec_publish_now(p, now), later),
{
}

/// Partial failure keeps the commit: the stored status flips to
/// `Published` before either channel is attempted, so a social-network
/// failure with a chat-broadcast success still leaves the post published
/// and the operation successful.
pub proof fn lemma_partial_failure_keeps_published(p: Post, now: i64)
    ensures
        spec_publish_now(p, now).status is Published,
        spec_publish_now(p, now).publish_datetime == Some(now),
{
}

} // verus!
