//! Bounding recent history to its newest entries.
use vstd::prelude::*;

use crate::report::is_config_issue;
use crate::status::{ConfigEventView, RecentConfigEvent, RecentConfigEventKind};
use crate::values::push_value;

verus! {

/// The newest `limit` entries when there are more than that, else all of them.
pub open spec fn bounded_view<T>(entries: Seq<T>, limit: Option<usize>) -> Seq<T> {
    match limit {
        Some(l) => if entries.len() > l {
            entries.subrange(entries.len() - l, entries.len() as int)
        } else {
            entries
        },
        None => entries,
    }
}

/// Keeps the newest `limit` entries (the last ones), or all of them without a limit.
pub fn bounded_recent_entries<T>(entries: Vec<T>, limit: Option<usize>) -> (r: Vec<T>)
    ensures
        r@ == bounded_view(entries@, limit),
{
    match limit {
        Some(l) => {
            if entries.len() > l {
                let start = entries.len() - l;
                let mut entries = entries;
                let kept = entries.split_off(start);
                kept
            } else {
                entries
            }
        },
        None => entries,
    }
}

/// The configuration events that are issues, in order.
pub open spec fn config_issues(events: Seq<ConfigEventView>) -> Seq<ConfigEventView>
    decreases events.len(),
{
    if events.len() == 0 {
        Seq::empty()
    } else {
        let prev = config_issues(events.drop_last());
        if is_config_issue(events.last().kind) {
            prev.push(events.last())
        } else {
            prev
        }
    }
}

/// Keeps the newest `limit` configuration events that are issues.
pub fn bounded_recent_config_issues(events: Vec<RecentConfigEvent>, limit: Option<usize>) -> (r: Vec<
    RecentConfigEvent,
>)
    ensures
        r.deep_view() == bounded_view(config_issues(events.deep_view()), limit),
{
    let ghost s = events.deep_view();
    let mut rest = events;
    let mut issues: Vec<RecentConfigEvent> = Vec::new();
    let mut taken: usize = 0;
    let total = rest.len();
    assert(issues.deep_view() =~= config_issues(s.subrange(0, 0)));
    while rest.len() > 0
        invariant
            total == s.len(),
            taken + rest@.len() == s.len(),
            rest.deep_view() == s.subrange(taken as int, s.len() as int),
            issues.deep_view() == config_issues(s.subrange(0, taken as int)),
        decreases rest@.len(),
    {
        let ghost before_rest = rest@;
        let ghost before_deep = rest.deep_view();
        let e = rest.remove(0);
        let ghost prefix = s.subrange(0, taken + 1);
        assert(prefix.drop_last() =~= s.subrange(0, taken as int));
        assert(before_deep[0] == e.deep_view());
        assert(prefix.last() == e.deep_view());
        if e.kind != RecentConfigEventKind::Applied && e.kind != RecentConfigEventKind::LaunchProfileChanged {
            push_value(&mut issues, e);
        }
        proof {
            assert forall|k: int| 0 <= k < rest@.len() implies #[trigger] rest.deep_view()[k]
                == s[taken + 1 + k] by {
                assert(rest@[k] == before_rest[k + 1]);
                assert(before_deep[k + 1] == s[taken + 1 + k]);
            }
        }
        taken = taken + 1;
        assert(rest.deep_view() =~= s.subrange(taken as int, s.len() as int));
    }
    assert(s.subrange(0, taken as int) =~= s);
    let ghost iv = issues.deep_view();
    let kept = bounded_recent_entries(issues, limit);
    proof {
        let b = bounded_view(iv, limit);
        assert(kept.deep_view().len() == b.len());
        assert forall|k: int| 0 <= k < b.len() implies #[trigger] kept.deep_view()[k] == b[k] by {
            match limit {
                Some(l) => {
                    if iv.len() > l {
                        assert(kept@[k] == issues@[iv.len() - l + k]);
                    }
                },
                None => {},
            }
        }
        assert(kept.deep_view() =~= b);
    }
    kept
}

} // verus!
