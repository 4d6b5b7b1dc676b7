//! The RebuildMessages repair: every content hash of the blob index that no
//! metadata record references gets one record, owned by a default user.

use crate::archive::{count_after_insert, count_by_hash, Archive};
use crate::hash::content_hash_of;
use crate::blobs::BlobStore;
use crate::db::models::MessagesView;
use crate::db::requests::{NewMessage, NewMessageView};
use vstd::prelude::*;

verus! {

/// Whether the lookup of the default user found one. A user id of 0 stands
/// for none.
pub fn default_user_found(default_user_id: i32) -> (found: bool)
    ensures
        found == (default_user_id != 0),
{
    default_user_id != 0
}

/// The record that the repair inserts for `hash`, which `message_count`
/// records reference: one for the default user where there is none yet,
/// nothing else.
pub open spec fn recovery(default_user_id: i32, hash: Seq<char>, message_count: int) -> Option<
    NewMessageView,
> {
    if message_count == 0 {
        Some(NewMessageView { user_id: default_user_id, content_hash: hash })
    } else {
        None
    }
}

/// Decides what the repair inserts for one hash of the blob index, given
/// the number of metadata records that reference it.
pub fn recover_record(default_user_id: i32, hash: String, message_count: i64) -> (record: Option<
    NewMessage,
>)
    ensures
        record.deep_view() == recovery(default_user_id, hash@, message_count as int),
{
    if message_count == 0 {
        Some(NewMessage { user_id: default_user_id, content_hash: hash })
    } else {
        None
    }
}

/// The record that the store holds once `record` was inserted as the
/// record of position `position`, `ids` telling which id the store gives.
pub open spec fn inserted(record: NewMessageView, position: int, ids: spec_fn(int) -> i32) -> MessagesView {
    MessagesView {
        id: ids(position),
        user_id: record.user_id,
        content_hash: record.content_hash,
    }
}

/// The metadata records after the repair has walked `hashes` in order,
/// counting the records of each hash before deciding on it. `ids` tells
/// which id the store gives to the record that it inserts at a position.
pub open spec fn rebuilt(
    records: Seq<MessagesView>,
    hashes: Seq<Seq<char>>,
    default_user_id: i32,
    ids: spec_fn(int) -> i32,
) -> Seq<MessagesView>
    decreases hashes.len(),
{
    if hashes.len() == 0 {
        records
    } else {
        let next = match recovery(
            default_user_id,
            hashes.first(),
            count_by_hash(records, hashes.first()) as int,
        ) {
            Some(record) => records.push(inserted(record, records.len() as int, ids)),
            None => records,
        };
        rebuilt(next, hashes.drop_first(), default_user_id, ids)
    }
}

/// The repair never lowers the number of records of any hash.
pub proof fn rebuilt_keeps_records(
    records: Seq<MessagesView>,
    hashes: Seq<Seq<char>>,
    default_user_id: i32,
    ids: spec_fn(int) -> i32,
    hash: Seq<char>,
)
    ensures
        count_by_hash(rebuilt(records, hashes, default_user_id, ids), hash) >= count_by_hash(
            records,
            hash,
        ),
    decreases hashes.len(),
{
    if hashes.len() > 0 {
        let first = hashes.first();
        let row = inserted(
            NewMessageView { user_id: default_user_id, content_hash: first },
            records.len() as int,
            ids,
        );
        count_after_insert(records, row, hash);
        let next = if count_by_hash(records, first) == 0 {
            records.push(row)
        } else {
            records
        };
        rebuilt_keeps_records(next, hashes.drop_first(), default_user_id, ids, hash);
    }
}

/// Rebuild completeness. After the repair has walked the hashes of the blob
/// index, every one of them is referenced by at least one metadata record,
/// whatever records there were before, none included.
pub proof fn rebuild_is_complete(
    store: BlobStore,
    records: Seq<MessagesView>,
    hashes: Seq<Seq<char>>,
    default_user_id: i32,
    ids: spec_fn(int) -> i32,
)
    requires
        forall|hash: Seq<char>| store.contains(hash) ==> hashes.contains(hash),
    ensures
        forall|hash: Seq<char>| #[trigger]
            store.contains(hash) ==> count_by_hash(
                rebuilt(records, hashes, default_user_id, ids),
                hash,
            ) >= 1,
{
    assert forall|hash: Seq<char>| #[trigger] store.contains(hash) implies count_by_hash(
        rebuilt(records, hashes, default_user_id, ids),
        hash,
    ) >= 1 by {
        assert(hashes.contains(hash));
        walked_hash_is_referenced(records, hashes, default_user_id, ids, hash);
    }
}

/// Every hash that the repair walked is referenced afterwards.
pub proof fn walked_hash_is_referenced(
    records: Seq<MessagesView>,
    hashes: Seq<Seq<char>>,
    default_user_id: i32,
    ids: spec_fn(int) -> i32,
    hash: Seq<char>,
)
    requires
        hashes.contains(hash),
    ensures
        count_by_hash(rebuilt(records, hashes, default_user_id, ids), hash) >= 1,
    decreases hashes.len(),
{
    let first = hashes.first();
    let row = inserted(
        NewMessageView { user_id: default_user_id, content_hash: first },
        records.len() as int,
        ids,
    );
    let next = if count_by_hash(records, first) == 0 {
        records.push(row)
    } else {
        records
    };
    if first == hash {
        count_after_insert(records, row, hash);
        rebuilt_keeps_records(next, hashes.drop_first(), default_user_id, ids, hash);
    } else {
        let i = choose|i: int| 0 <= i < hashes.len() && hashes[i] == hash;
        assert(hashes.drop_first()[i - 1] == hash);
        walked_hash_is_referenced(next, hashes.drop_first(), default_user_id, ids, hash);
    }
}

/// Every content hash of the blob index is referenced by a metadata record.
pub open spec fn every_hash_is_recorded(archive: Archive) -> bool {
    forall|hash: Seq<char>| #[trigger]
        archive.blobs.contains(hash) ==> count_by_hash(archive.records, hash) >= 1
}

/// An ingestion that runs to its end leaves no content hash without a
/// metadata record. Only a run that is cut short between the blob and the
/// record does, and that is what the repair mends.
pub proof fn ingestion_keeps_hashes_recorded(
    archive: Archive,
    user_id: i32,
    raw: Seq<u8>,
    payload: Seq<u8>,
    fresh_id: int,
    record_id: i32,
)
    requires
        every_hash_is_recorded(archive),
    ensures
        every_hash_is_recorded(archive.ingested(user_id, raw, payload, fresh_id, record_id)),
{
    let hash = content_hash_of(raw);
    let after = archive.ingested(user_id, raw, payload, fresh_id, record_id);
    assert forall|h: Seq<char>| #[trigger] after.blobs.contains(h) implies count_by_hash(
        after.records,
        h,
    ) >= 1 by {
        if !archive.blobs.contains(hash) {
            count_after_insert(
                archive.records,
                MessagesView { id: record_id, user_id, content_hash: hash },
                h,
            );
            if h != hash {
                assert(archive.blobs.contains(h));
            }
        }
    }
}

/// The repair is idempotent: where every walked hash is referenced already,
/// it inserts nothing, so a second run changes nothing.
pub proof fn rebuild_twice_is_rebuild_once(
    records: Seq<MessagesView>,
    hashes: Seq<Seq<char>>,
    default_user_id: i32,
    ids: spec_fn(int) -> i32,
)
    ensures
        rebuilt(rebuilt(records, hashes, default_user_id, ids), hashes, default_user_id, ids)
            == rebuilt(records, hashes, default_user_id, ids),
{
    let once = rebuilt(records, hashes, default_user_id, ids);
    assert forall|i: int| 0 <= i < hashes.len() implies count_by_hash(once, #[trigger] hashes[i])
        >= 1 by {
        walked_hash_is_referenced(records, hashes, default_user_id, ids, hashes[i]);
    }
    referenced_hashes_need_nothing(once, hashes, default_user_id, ids);
}

/// Where every walked hash is referenced already, the repair inserts
/// nothing.
pub proof fn referenced_hashes_need_nothing(
    records: Seq<MessagesView>,
    hashes: Seq<Seq<char>>,
    default_user_id: i32,
    ids: spec_fn(int) -> i32,
)
    requires
        forall|i: int| 0 <= i < hashes.len() ==> count_by_hash(records, #[trigger] hashes[i]) >= 1,
    ensures
        rebuilt(records, hashes, default_user_id, ids) == records,
    decreases hashes.len(),
{
    if hashes.len() > 0 {
        assert(count_by_hash(records, hashes[0]) >= 1);
        assert forall|i: int| 0 <= i < hashes.drop_first().len() implies count_by_hash(
            records,
            #[trigger] hashes.drop_first()[i],
        ) >= 1 by {
            assert(hashes.drop_first()[i] == hashes[i + 1]);
        }
        referenced_hashes_need_nothing(records, hashes.drop_first(), default_user_id, ids);
    }
}

} // verus!
