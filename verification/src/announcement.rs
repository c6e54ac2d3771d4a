//! Announcements, owned by the member who published them. Updating or
//! deleting one is gated by the self-or-super-administrator rule against
//! the publisher.

use vstd::pervasive::VecAdditionalExecFns;
use vstd::prelude::*;

use crate::identity::{joined_name, IdentityStore};
use crate::permission::{allowed, authorize};
use crate::response::AppError;
use crate::roles::Claims;

verus! {

/// Payload for publishing or rewriting an announcement.
pub struct UpsertAnnouncementRequest {
    pub title: String,
    pub content: String,
}

/// A stored announcement. A row is live while `deleted_at` is absent.
pub struct AnnouncementRow {
    pub id: u128,
    pub publisher_id: u128,
    pub title: String,
    pub content: String,
    pub created_at: i64,
    pub updated_at: i64,
    pub deleted_at: Option<i64>,
}

impl AnnouncementRow {
    /// A row is live until it is soft-deleted.
    pub open spec fn is_live(self) -> bool {
        self.deleted_at is None
    }
}

/// Read shape of an announcement joined with the publisher's name.
pub struct AnnouncementView {
    pub id: u128,
    pub name: String,
    pub title: String,
    pub content: String,
    pub updated_at: i64,
}

/// Some live announcement carries this identifier.
pub open spec fn has_live_announcement(s: Seq<AnnouncementRow>, id: u128) -> bool {
    exists|i: int| 0 <= i < s.len() && (#[trigger] s[i]).id == id && s[i].is_live()
}

/// The publisher of the live announcement at this index.
pub open spec fn live_announcement_at(s: Seq<AnnouncementRow>, id: u128, i: int) -> bool {
    0 <= i < s.len() && s[i].id == id && s[i].is_live()
}

/// The liveness predicate on announcement rows.
pub open spec fn announcement_live_pred() -> spec_fn(AnnouncementRow) -> bool {
    |a: AnnouncementRow| a.is_live()
}

/// The live announcement rows, in storage order.
pub open spec fn live_announcements(s: Seq<AnnouncementRow>) -> Seq<AnnouncementRow> {
    s.filter(announcement_live_pred())
}

/// The announcement table and its identifier allocator.
pub struct AnnouncementStore {
    pub rows: Vec<AnnouncementRow>,
    pub next_id: u128,
}

impl AnnouncementStore {
    /// Announcement identifiers are unique and below the allocator mark.
    pub open spec fn wf(self) -> bool {
        &&& (forall|i: int, j: int|
            0 <= i < j < self.rows@.len() ==> (#[trigger] self.rows@[i]).id != (
            #[trigger] self.rows@[j]).id)
        &&& (forall|i: int|
            0 <= i < self.rows@.len() ==> (#[trigger] self.rows@[i]).id < self.next_id)
    }

    /// A fresh identifier can still be allocated.
    pub open spec fn can_alloc(self) -> bool {
        self.next_id < u128::MAX
    }

    /// An empty store.
    pub fn new() -> (r: AnnouncementStore)
        ensures
            r.wf(),
            r.rows@ =~= Seq::<AnnouncementRow>::empty(),
            r.can_alloc(),
    {
        AnnouncementStore { rows: Vec::new(), next_id: 1 }
    }

    /// Index of the live announcement carrying this identifier, if any.
    pub fn live_announcement_index(&self, id: u128) -> (r: Option<usize>)
        ensures
            match r {
                Some(i) => live_announcement_at(self.rows@, id, i as int),
                None => !has_live_announcement(self.rows@, id),
            },
    {
        let mut i: usize = 0;
        while i < self.rows.len()
            invariant
                i <= self.rows@.len(),
                forall|k: int|
                    0 <= k < i ==> !((#[trigger] self.rows@[k]).id == id
                        && self.rows@[k].is_live()),
            decreases self.rows@.len() - i,
        {
            if self.rows[i].id == id && self.rows[i].deleted_at.is_none() {
                return Some(i);
            }
            i += 1;
        }
        None
    }

    /// Find a live announcement by identifier. Soft-deleted rows are
    /// invisible.
    pub fn find_announcement_by_id(&self, id: u128) -> (r: Option<&AnnouncementRow>)
        ensures
            match r {
                Some(a) => a.id == id && a.is_live() && has_live_announcement(self.rows@, id),
                None => !has_live_announcement(self.rows@, id),
            },
    {
        match self.live_announcement_index(id) {
            Some(i) => Some(&self.rows[i]),
            None => None,
        }
    }

    /// Publish an announcement owned by the acting member.
    pub fn add_announcement(&mut self, claims: Claims, req: UpsertAnnouncementRequest, now: i64) -> (r:
        Result<u128, AppError>)
        requires
            old(self).wf(),
        ensures
            final(self).wf(),
            r is Err ==> *final(self) == *old(self),
            r is Err <==> !old(self).can_alloc(),
            r is Err ==> r == Err::<u128, AppError>(AppError::Storage),
            r is Ok ==> {
                &&& r == Ok::<u128, AppError>(old(self).next_id)
                &&& final(self).next_id == old(self).next_id + 1
                &&& final(self).rows@ == old(self).rows@.push(
                    (AnnouncementRow {
                        id: old(self).next_id,
                        publisher_id: claims.sub,
                        title: req.title,
                        content: req.content,
                        created_at: now,
                        updated_at: now,
                        deleted_at: None,
                    }),
                )
            },
    {
        if self.next_id == u128::MAX {
            return Err(AppError::Storage);
        }
        let id = self.next_id;
        let UpsertAnnouncementRequest { title, content } = req;
        self.rows.push(
            AnnouncementRow {
                id,
                publisher_id: claims.sub,
                title,
                content,
                created_at: now,
                updated_at: now,
                deleted_at: None,
            },
        );
        self.next_id = id + 1;
        Ok(id)
    }

    /// Rewrite a live announcement's title and content. Only the
    /// publisher or a super administrator may do so.
    pub fn update_announcement(
        &mut self,
        claims: Claims,
        id: u128,
        req: UpsertAnnouncementRequest,
        identity: &IdentityStore,
        now: i64,
    ) -> (r: Result<AnnouncementView, AppError>)
        requires
            old(self).wf(),
        ensures
            final(self).wf(),
            final(self).next_id == old(self).next_id,
            r is Err ==> *final(self) == *old(self),
            r == Err::<AnnouncementView, AppError>(AppError::NotFound) <==> !has_live_announcement(
                old(self).rows@,
                id,
            ),
            r == Err::<AnnouncementView, AppError>(AppError::Permission) <==> exists|i: int|
                live_announcement_at(old(self).rows@, id, i) && !allowed(
                    claims.sub,
                    claims.role,
                    (#[trigger] old(self).rows@[i]).publisher_id,
                ),
            r is Ok <==> exists|i: int|
                live_announcement_at(old(self).rows@, id, i) && allowed(
                    claims.sub,
                    claims.role,
                    (#[trigger] old(self).rows@[i]).publisher_id,
                ),
            r is Ok ==> exists|i: int|
                {
                    &&& live_announcement_at(old(self).rows@, id, i)
                    &&& allowed(claims.sub, claims.role, (#[trigger] old(self).rows@[i]).publisher_id)
                    &&& final(self).rows@ == old(self).rows@.update(
                        i,
                        (AnnouncementRow {
                            id,
                            publisher_id: old(self).rows@[i].publisher_id,
                            title: req.title,
                            content: req.content,
                            created_at: old(self).rows@[i].created_at,
                            updated_at: now,
                            deleted_at: None,
                        }),
                    )
                    &&& (r matches Ok(v) ==> v.id == id && v.title == req.title && v.content
                        == req.content && v.updated_at == now && joined_name(
                        identity.members@,
                        old(self).rows@[i].publisher_id,
                        v.name@,
                    ))
                },
    {
        let ai = match self.live_announcement_index(id) {
            Some(i) => i,
            None => {
                return Err(AppError::NotFound);
            },
        };
        let publisher_id = self.rows[ai].publisher_id;
        if !authorize(claims.sub, claims.role, publisher_id) {
            return Err(AppError::Permission);
        }
        let UpsertAnnouncementRequest { title, content } = req;
        let created = self.rows[ai].created_at;
        let view = AnnouncementView {
            id,
            name: match identity.member_name(publisher_id) {
                Some(n) => n,
                None => "unknown".to_owned(),
            },
            title: title.clone(),
            content: content.clone(),
            updated_at: now,
        };
        let updated = AnnouncementRow {
            id,
            publisher_id,
            title,
            content,
            created_at: created,
            updated_at: now,
            deleted_at: None,
        };
        self.rows.set(ai, updated);
        Ok(view)
    }

    /// Soft-delete a live announcement. Only the publisher or a super
    /// administrator may do so.
    pub fn delete_announcement(&mut self, claims: Claims, id: u128, now: i64) -> (r: Result<
        (),
        AppError,
    >)
        requires
            old(self).wf(),
        ensures
            final(self).wf(),
            final(self).next_id == old(self).next_id,
            r is Err ==> *final(self) == *old(self),
            r == Err::<(), AppError>(AppError::NotFound) <==> !has_live_announcement(
                old(self).rows@,
                id,
            ),
            r == Err::<(), AppError>(AppError::Permission) <==> exists|i: int|
                live_announcement_at(old(self).rows@, id, i) && !allowed(
                    claims.sub,
                    claims.role,
                    (#[trigger] old(self).rows@[i]).publisher_id,
                ),
            r is Ok <==> exists|i: int|
                live_announcement_at(old(self).rows@, id, i) && allowed(
                    claims.sub,
                    claims.role,
                    (#[trigger] old(self).rows@[i]).publisher_id,
                ),
            r is Ok ==> !has_live_announcement(final(self).rows@, id),
            r is Ok ==> exists|i: int|
                {
                    &&& live_announcement_at(old(self).rows@, id, i)
                    &&& allowed(claims.sub, claims.role, (#[trigger] old(self).rows@[i]).publisher_id)
                    &&& final(self).rows@ == old(self).rows@.update(
                        i,
                        (AnnouncementRow {
                            id,
                            publisher_id: old(self).rows@[i].publisher_id,
                            title: old(self).rows@[i].title,
                            content: old(self).rows@[i].content,
                            created_at: old(self).rows@[i].created_at,
                            updated_at: now,
                            deleted_at: Some(now),
                        }),
                    )
                },
    {
        let ai = match self.live_announcement_index(id) {
            Some(i) => i,
            None => {
                return Err(AppError::NotFound);
            },
        };
        let publisher_id = self.rows[ai].publisher_id;
        if !authorize(claims.sub, claims.role, publisher_id) {
            return Err(AppError::Permission);
        }
        let row = &self.rows[ai];
        let updated = AnnouncementRow {
            id,
            publisher_id,
            title: row.title.clone(),
            content: row.content.clone(),
            created_at: row.created_at,
            updated_at: now,
            deleted_at: Some(now),
        };
        self.rows.set(ai, updated);
        Ok(())
    }

    /// List the live announcements, each joined with the publisher's name
    /// from the identity store, or a placeholder when the member is
    /// unknown. Soft-deleted rows never appear.
    pub fn get_announcements(&self, identity: &IdentityStore) -> (r: Vec<AnnouncementView>)
        ensures
            r@.len() == live_announcements(self.rows@).len(),
            forall|k: int|
                0 <= k < r@.len() ==> {
                    let a = live_announcements(self.rows@)[k];
                    let v = #[trigger] r@[k];
                    &&& v.id == a.id
                    &&& v.title == a.title
                    &&& v.content == a.content
                    &&& v.updated_at == a.updated_at
                    &&& joined_name(identity.members@, a.publisher_id, v.name@)
                },
    {
        let mut result: Vec<AnnouncementView> = Vec::new();
        let mut i: usize = 0;
        while i < self.rows.len()
            invariant
                i <= self.rows@.len(),
                result@.len() == live_announcements(self.rows@.subrange(0, i as int)).len(),
                forall|k: int|
                    0 <= k < result@.len() ==> {
                        let a = live_announcements(self.rows@.subrange(0, i as int))[k];
                        let v = #[trigger] result@[k];
                        &&& v.id == a.id
                        &&& v.title == a.title
                        &&& v.content == a.content
                        &&& v.updated_at == a.updated_at
                        &&& joined_name(identity.members@, a.publisher_id, v.name@)
                    },
            decreases self.rows@.len() - i,
        {
            let ghost pre = self.rows@.subrange(0, i as int);
            let ghost elem = self.rows@[i as int];
            if self.rows[i].deleted_at.is_none() {
                let row = &self.rows[i];
                let name = match identity.member_name(row.publisher_id) {
                    Some(n) => n,
                    None => "unknown".to_owned(),
                };
                result.push(
                    AnnouncementView {
                        id: row.id,
                        name,
                        title: row.title.clone(),
                        content: row.content.clone(),
                        updated_at: row.updated_at,
                    },
                );
            }
            proof {
                pre.lemma_filter_push(elem, announcement_live_pred());
                assert(self.rows@.subrange(0, i as int + 1) =~= pre.push(elem));
            }
            i += 1;
        }
        proof {
            assert(self.rows@.subrange(0, self.rows@.len() as int) =~= self.rows@);
        }
        result
    }
}

} // verus!
