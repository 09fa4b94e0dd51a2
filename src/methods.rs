//! The method names of the protocol's tagged messages: each tagged union of
//! the envelope selects its variant by one of these names.

use vstd::prelude::*;
use crate::text::same_text;

verus! {

/// The method name of the variant of index `k` of [`ClientRequest`].
pub open spec fn client_request_method(k: int) -> Seq<char> {
    if k == 0 {
        "initialize"@
    } else if k == 1 {
        "ping"@
    } else if k == 2 {
        "resources/list"@
    } else if k == 3 {
        "resources/templates/list"@
    } else if k == 4 {
        "resources/read"@
    } else if k == 5 {
        "resources/subscribe"@
    } else if k == 6 {
        "resources/unsubscribe"@
    } else if k == 7 {
        "prompts/list"@
    } else if k == 8 {
        "prompts/get"@
    } else if k == 9 {
        "tools/list"@
    } else if k == 10 {
        "tools/call"@
    } else if k == 11 {
        "logging/setlevel"@
    } else {
        "completion/complete"@
    }
}

/// The method name of the variant of index `k` of [`ClientRequest`].
pub fn client_request_method_name(k: usize) -> (m: &'static str)
    requires
        k < 13,
    ensures
        m@ == client_request_method(k as int),
{
    match k {
        0 => "initialize",
        1 => "ping",
        2 => "resources/list",
        3 => "resources/templates/list",
        4 => "resources/read",
        5 => "resources/subscribe",
        6 => "resources/unsubscribe",
        7 => "prompts/list",
        8 => "prompts/get",
        9 => "tools/list",
        10 => "tools/call",
        11 => "logging/setlevel",
        _ => "completion/complete",
    }
}

/// The index of the first variant of [`ClientRequest`] from index `k` on whose
/// method name is `m`.
pub open spec fn client_request_kind_from(m: Seq<char>, k: int) -> Option<int>
    decreases 13 - k,
{
    if k < 0 || k >= 13 {
        None
    } else if client_request_method(k) == m {
        Some(k)
    } else {
        client_request_kind_from(m, k + 1)
    }
}

/// A variant found for `m` has `m` as its method name.
pub proof fn lemma_client_request_kind_from(m: Seq<char>, k: int)
    ensures
        client_request_kind_from(m, k) matches Some(i) ==> 0 <= i < 13 && client_request_method(i) == m,
    decreases 13 - k,
{
    if 0 <= k < 13 && client_request_method(k) != m {
        lemma_client_request_kind_from(m, k + 1);
    }
}

/// The index of the variant of [`ClientRequest`] whose method name is `m`, if any.
pub open spec fn client_request_kind(m: Seq<char>) -> Option<int> {
    client_request_kind_from(m, 0)
}

/// The index of the variant of [`ClientRequest`] whose method name is `m`, if any.
pub fn find_client_request(m: &str) -> (k: Option<usize>)
    ensures
        match k {
            Some(i) => client_request_kind(m@) == Some(i as int) && i < 13 && client_request_method(i as int) == m@,
            None => client_request_kind(m@) is None,
        },
{
    let mut k: usize = 0;
    while k < 13
        invariant
            0 <= k <= 13,
            client_request_kind(m@) == client_request_kind_from(m@, k as int),
        decreases 13 - k,
    {
        if same_text(m, client_request_method_name(k)) {
            proof {
                lemma_client_request_kind_from(m@, k as int);
            }
            return Some(k);
        }
        k += 1;
    }
    None
}

/// The method name of the variant of index `k` of [`ClientNotification`].
pub open spec fn client_notification_method(k: int) -> Seq<char> {
    if k == 0 {
        "notifications/cancelled"@
    } else if k == 1 {
        "notifications/initialized"@
    } else if k == 2 {
        "notifications/progress"@
    } else {
        "notifications/roots/list_changed"@
    }
}

/// The method name of the variant of index `k` of [`ClientNotification`].
pub fn client_notification_method_name(k: usize) -> (m: &'static str)
    requires
        k < 4,
    ensures
        m@ == client_notification_method(k as int),
{
    match k {
        0 => "notifications/cancelled",
        1 => "notifications/initialized",
        2 => "notifications/progress",
        _ => "notifications/roots/list_changed",
    }
}

/// The index of the first variant of [`ClientNotification`] from index `k` on whose
/// method name is `m`.
pub open spec fn client_notification_kind_from(m: Seq<char>, k: int) -> Option<int>
    decreases 4 - k,
{
    if k < 0 || k >= 4 {
        None
    } else if client_notification_method(k) == m {
        Some(k)
    } else {
        client_notification_kind_from(m, k + 1)
    }
}

/// A variant found for `m` has `m` as its method name.
pub proof fn lemma_client_notification_kind_from(m: Seq<char>, k: int)
    ensures
        client_notification_kind_from(m, k) matches Some(i) ==> 0 <= i < 4 && client_notification_method(i) == m,
    decreases 4 - k,
{
    if 0 <= k < 4 && client_notification_method(k) != m {
        lemma_client_notification_kind_from(m, k + 1);
    }
}

/// The index of the variant of [`ClientNotification`] whose method name is `m`, if any.
pub open spec fn client_notification_kind(m: Seq<char>) -> Option<int> {
    client_notification_kind_from(m, 0)
}

/// The index of the variant of [`ClientNotification`] whose method name is `m`, if any.
pub fn find_client_notification(m: &str) -> (k: Option<usize>)
    ensures
        match k {
            Some(i) => client_notification_kind(m@) == Some(i as int) && i < 4 && client_notification_method(i as int) == m@,
            None => client_notification_kind(m@) is None,
        },
{
    let mut k: usize = 0;
    while k < 4
        invariant
            0 <= k <= 4,
            client_notification_kind(m@) == client_notification_kind_from(m@, k as int),
        decreases 4 - k,
    {
        if same_text(m, client_notification_method_name(k)) {
            proof {
                lemma_client_notification_kind_from(m@, k as int);
            }
            return Some(k);
        }
        k += 1;
    }
    None
}

/// The method name of the variant of index `k` of [`ServerRequest`].
pub open spec fn server_request_method(k: int) -> Seq<char> {
    if k == 0 {
        "ping"@
    } else if k == 1 {
        "sampling/createMessage"@
    } else {
        "roots/list"@
    }
}

/// The method name of the variant of index `k` of [`ServerRequest`].
pub fn server_request_method_name(k: usize) -> (m: &'static str)
    requires
        k < 3,
    ensures
        m@ == server_request_method(k as int),
{
    match k {
        0 => "ping",
        1 => "sampling/createMessage",
        _ => "roots/list",
    }
}

/// The method name of the variant of index `k` of [`ServerNotification`].
pub open spec fn server_notification_method(k: int) -> Seq<char> {
    if k == 0 {
        "notifications/cancelled"@
    } else if k == 1 {
        "notifications/progress"@
    } else if k == 2 {
        "notifications/resources/list_changed"@
    } else if k == 3 {
        "notifications/resources/updated"@
    } else if k == 4 {
        "notifications/prompts/list_changed"@
    } else if k == 5 {
        "notifications/tools/list_changed"@
    } else {
        "notifications/message"@
    }
}

/// The method name of the variant of index `k` of [`ServerNotification`].
pub fn server_notification_method_name(k: usize) -> (m: &'static str)
    requires
        k < 7,
    ensures
        m@ == server_notification_method(k as int),
{
    match k {
        0 => "notifications/cancelled",
        1 => "notifications/progress",
        2 => "notifications/resources/list_changed",
        3 => "notifications/resources/updated",
        4 => "notifications/prompts/list_changed",
        5 => "notifications/tools/list_changed",
        _ => "notifications/message",
    }
}

} // verus!
