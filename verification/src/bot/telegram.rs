//! Telegram notifications: when they are enabled, and how the update offset
//! advances.
use vstd::prelude::*;

verus! {

broadcast use vstd::string::group_string_axioms;

/// Whether an optional setting is present and not empty.
pub open spec fn set_and_not_empty(o: Option<String>) -> bool {
    match o {
        Some(s) => s@.len() > 0,
        None => false,
    }
}

/// The bot token and chat id for notifications, from `TELEGRAM_BOT_TOKEN`
/// and `TELEGRAM_CHAT_ID`: notifications are enabled only when both are set
/// and not empty.
pub fn notifier_settings(token: Option<String>, chat_id: Option<String>) -> (r: Option<
    (String, String),
>)
    ensures
        match r {
            Some((t, c)) => token == Some(t) && chat_id == Some(c) && t@.len() > 0 && c@.len() > 0,
            None => !(set_and_not_empty(token) && set_and_not_empty(chat_id)),
        },
{
    match (token, chat_id) {
        (Some(t), Some(c)) => {
            if t.as_str().is_empty() || c.as_str().is_empty() {
                None
            } else {
                Some((t, c))
            }
        },
        _ => None,
    }
}

/// The largest of `offset` and one past each update id.
pub open spec fn offset_after(offset: u64, ids: Seq<u64>) -> int
    decreases ids.len(),
{
    if ids.len() == 0 {
        offset as int
    } else {
        let prev = offset_after(offset, ids.drop_last());
        let next = ids.last() + 1;
        if prev >= next {
            prev
        } else {
            next
        }
    }
}

/// The offset for the next `getUpdates` call, after the updates with the
/// given ids: past every update received, and never behind `offset`.
pub fn next_update_offset(offset: u64, update_ids: &Vec<u64>) -> (r: u64)
    requires
        forall|i: int| 0 <= i < update_ids@.len() ==> update_ids@[i] < u64::MAX,
    ensures
        r == offset_after(offset, update_ids@),
        r >= offset,
        forall|i: int| 0 <= i < update_ids@.len() ==> r > update_ids@[i],
{
    let mut new_offset = offset;
    let mut i: usize = 0;
    assert(update_ids@.take(0) =~= Seq::<u64>::empty());
    while i < update_ids.len()
        invariant
            i <= update_ids@.len(),
            forall|j: int| 0 <= j < update_ids@.len() ==> update_ids@[j] < u64::MAX,
            new_offset == offset_after(offset, update_ids@.take(i as int)),
            new_offset >= offset,
            forall|j: int| 0 <= j < i ==> new_offset > update_ids@[j],
        decreases update_ids@.len() - i,
    {
        let next = update_ids[i] + 1;
        assert(update_ids@.take(i + 1).drop_last() =~= update_ids@.take(i as int));
        if next > new_offset {
            new_offset = next;
        }
        i = i + 1;
    }
    assert(update_ids@.take(i as int) =~= update_ids@);
    new_offset
}

} // verus!
