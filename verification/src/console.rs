//! The lines the command line prints about configurations: what an applied
//! or previewed configuration changed, and what a watcher keeps when a
//! change does not go through.
use vstd::prelude::*;

use crate::text::{append_text, append_total, decimal, join2, owned};
use crate::config_change::ConfigDiff;
use crate::values::OperatorValue;

verus! {

/// Texts joined with a separator between each two.
pub open spec fn joined_with(items: Seq<Seq<char>>, sep: Seq<char>) -> Seq<char>
    decreases items.len(),
{
    if items.len() == 0 {
        Seq::empty()
    } else if items.len() == 1 {
        items[0]
    } else {
        joined_with(items.drop_last(), sep) + sep + items.last()
    }
}

/// Joins texts with a separator between each two.
pub fn join_texts(items: &Vec<String>, sep: &str) -> (r: String)
    ensures
        r@ == joined_with(items.deep_view(), sep@),
{
    let ghost s = items.deep_view();
    let mut out = owned("");
    proof {
        reveal_strlit("");
    }
    assert(out@ =~= joined_with(s.subrange(0, 0), sep@));
    let mut i: usize = 0;
    while i < items.len()
        invariant
            i <= items@.len(),
            s == items.deep_view(),
            out@ == joined_with(s.subrange(0, i as int), sep@),
        decreases items@.len() - i,
    {
        let ghost prefix = s.subrange(0, i + 1);
        assert(prefix.drop_last() =~= s.subrange(0, i as int));
        assert(prefix.last() == items@[i as int]@);
        if i > 0 {
            out.append(sep);
        } else {
            assert(out@ =~= Seq::<char>::empty());
        }
        out.append(items[i].as_str());
        assert(out@ =~= joined_with(prefix, sep@));
        i = i + 1;
    }
    assert(s.subrange(0, i as int) =~= s);
    out
}

/// A list of ids as the command line prints it: comma-separated.
pub open spec fn id_list(ids: Seq<Seq<char>>) -> Seq<char> {
    joined_with(ids, ","@)
}

/// The fields of a configuration diff, each `key=ids` with its key.
pub open spec fn diff_fields(d: ConfigDiff) -> Seq<Seq<char>> {
    seq![
        "added_ingresses="@ + id_list(d.added_ingresses.deep_view()),
        "removed_ingresses="@ + id_list(d.removed_ingresses.deep_view()),
        "changed_ingresses="@ + id_list(d.changed_ingresses.deep_view()),
        "added_destinations="@ + id_list(d.added_destinations.deep_view()),
        "removed_destinations="@ + id_list(d.removed_destinations.deep_view()),
        "changed_destinations="@ + id_list(d.changed_destinations.deep_view()),
        "added_routes="@ + id_list(d.added_routes.deep_view()),
        "removed_routes="@ + id_list(d.removed_routes.deep_view()),
        "changed_routes="@ + id_list(d.changed_routes.deep_view()),
    ]
}

fn diff_field(key: &str, ids: &Vec<String>) -> (r: String)
    ensures
        r@ == key@ + id_list(ids.deep_view()),
{
    let list = join_texts(ids, ",");
    join2(key, list.as_str())
}

fn diff_field_texts(diff: &ConfigDiff) -> (r: Vec<String>)
    ensures
        r.deep_view() == diff_fields(*diff),
{
    let mut out: Vec<String> = Vec::new();
    out.push(diff_field("added_ingresses=", &diff.added_ingresses));
    out.push(diff_field("removed_ingresses=", &diff.removed_ingresses));
    out.push(diff_field("changed_ingresses=", &diff.changed_ingresses));
    out.push(diff_field("added_destinations=", &diff.added_destinations));
    out.push(diff_field("removed_destinations=", &diff.removed_destinations));
    out.push(diff_field("changed_destinations=", &diff.changed_destinations));
    out.push(diff_field("added_routes=", &diff.added_routes));
    out.push(diff_field("removed_routes=", &diff.removed_routes));
    out.push(diff_field("changed_routes=", &diff.changed_routes));
    assert(out.deep_view() =~= diff_fields(*diff));
    out
}

/// The line printed for an applied configuration: its revision, then every
/// field of its diff, separated by spaces.
pub open spec fn applied_config_text(revision: u64, d: ConfigDiff) -> Seq<char> {
    "applied config revision="@ + decimal(revision as nat) + " "@ + joined_with(diff_fields(d), " "@)
}

/// Writes the line printed for an applied configuration.
pub fn applied_config_line(revision: u64, diff: &ConfigDiff) -> (r: String)
    ensures
        r@ == applied_config_text(revision, *diff),
{
    let fields = diff_field_texts(diff);
    let rest = join_texts(&fields, " ");
    let mut line = owned("applied config revision=");
    append_total(&mut line, "", revision);
    append_text(&mut line, " ", rest.as_str());
    proof {
        reveal_strlit("");
    }
    assert(line@ =~= applied_config_text(revision, *diff));
    line
}

/// The line printed once the first configuration is loaded: its revision and
/// what it added.
pub open spec fn initial_config_text(revision: u64, d: ConfigDiff) -> Seq<char> {
    "loaded initial config: revision="@ + decimal(revision as nat) + " added_ingresses="@ + id_list(
        d.added_ingresses.deep_view(),
    ) + " added_destinations="@ + id_list(d.added_destinations.deep_view()) + " added_routes="@
        + id_list(d.added_routes.deep_view())
}

/// Writes the line printed once the first configuration is loaded.
pub fn initial_config_line(revision: u64, diff: &ConfigDiff) -> (r: String)
    ensures
        r@ == initial_config_text(revision, *diff),
{
    let mut line = owned("");
    append_total(&mut line, "loaded initial config: revision=", revision);
    let ingresses = join_texts(&diff.added_ingresses, ",");
    append_text(&mut line, " added_ingresses=", ingresses.as_str());
    let destinations = join_texts(&diff.added_destinations, ",");
    append_text(&mut line, " added_destinations=", destinations.as_str());
    let routes = join_texts(&diff.added_routes, ",");
    append_text(&mut line, " added_routes=", routes.as_str());
    proof {
        reveal_strlit("");
    }
    assert(line@ =~= initial_config_text(revision, *diff));
    line
}

/// The lines printed when a candidate configuration is compared with the
/// current one: the current revision, then one line per field of the diff.
pub open spec fn config_diff_texts(current_revision: u64, d: ConfigDiff) -> Seq<Seq<char>> {
    seq!["current_revision="@ + decimal(current_revision as nat)] + diff_fields(d)
}

/// Writes the lines printed when a candidate configuration is compared.
pub fn config_diff_lines(current_revision: u64, diff: &ConfigDiff) -> (r: Vec<String>)
    ensures
        r.deep_view() == config_diff_texts(current_revision, *diff),
{
    let mut head = owned("");
    append_total(&mut head, "current_revision=", current_revision);
    proof {
        reveal_strlit("");
    }
    let fields = diff_field_texts(diff);
    let mut out: Vec<String> = Vec::new();
    out.push(head);
    let mut i: usize = 0;
    while i < fields.len()
        invariant
            i <= fields@.len(),
            out.deep_view() == seq!["current_revision="@ + decimal(current_revision as nat)]
                + fields.deep_view().subrange(0, i as int),
        decreases fields@.len() - i,
    {
        assert(fields.deep_view()[i as int] == fields@[i as int]@);
        let x = fields[i].duplicate();
        let ghost before = out.deep_view();
        out.push(x);
        assert(out.deep_view() =~= before.push(x@));
        assert(out.deep_view() =~= seq!["current_revision="@ + decimal(current_revision as nat)]
            + fields.deep_view().subrange(0, i + 1));
        i = i + 1;
    }
    assert(fields.deep_view().subrange(0, i as int) =~= fields.deep_view());
    out
}

/// A configuration change that did not go through, as a watcher reports it.
#[derive(Clone, Debug)]
pub enum KeptRevisionNotice {
    /// The configuration watcher could not parse or validate the change.
    ConfigRejected(String),
    /// The configuration watcher's safety policy blocked the change.
    ConfigBlocked(Vec<String>),
    /// The proxy watcher's safety policy blocked the reload.
    ProxyBlocked(Vec<String>),
    /// The proxy watcher could not parse or validate the change.
    ProxyRejected(String),
    /// The proxy could not restart on the change and went back.
    ProxyReloadFailed(String),
}

/// The line for a change that did not go through: what happened, the
/// revision kept (zero before any was applied), and the reason, or the
/// reasons separated by ` | `.
pub open spec fn kept_revision_text(notice: KeptRevisionNotice, revision: Option<u64>) -> Seq<char> {
    let kept = decimal(
        match revision {
            Some(r) => r as nat,
            None => 0nat,
        },
    );
    match notice {
        KeptRevisionNotice::ConfigRejected(reason) => "rejected config change; keeping revision="@
            + kept + " reason="@ + reason@,
        KeptRevisionNotice::ConfigBlocked(reasons) => "blocked config change; keeping revision="@
            + kept + " reasons="@ + joined_with(reasons.deep_view(), " | "@),
        KeptRevisionNotice::ProxyBlocked(reasons) => "blocked proxy reload; keeping revision="@
            + kept + " reasons="@ + joined_with(reasons.deep_view(), " | "@),
        KeptRevisionNotice::ProxyRejected(reason) => "rejected proxy reload; keeping revision="@
            + kept + " reason="@ + reason@,
        KeptRevisionNotice::ProxyReloadFailed(reason) => "failed proxy reload; keeping revision="@
            + kept + " reason="@ + reason@,
    }
}

/// Writes the line for a change that did not go through.
pub fn kept_revision_line(notice: &KeptRevisionNotice, revision: Option<u64>) -> (r: String)
    ensures
        r@ == kept_revision_text(*notice, revision),
{
    let kept = match revision {
        Some(r) => r,
        None => 0,
    };
    let mut line = owned("");
    proof {
        reveal_strlit("");
    }
    match notice {
        KeptRevisionNotice::ConfigRejected(reason) => {
            append_total(&mut line, "rejected config change; keeping revision=", kept);
            append_text(&mut line, " reason=", reason.as_str());
        },
        KeptRevisionNotice::ConfigBlocked(reasons) => {
            append_total(&mut line, "blocked config change; keeping revision=", kept);
            let joined = join_texts(reasons, " | ");
            append_text(&mut line, " reasons=", joined.as_str());
        },
        KeptRevisionNotice::ProxyBlocked(reasons) => {
            append_total(&mut line, "blocked proxy reload; keeping revision=", kept);
            let joined = join_texts(reasons, " | ");
            append_text(&mut line, " reasons=", joined.as_str());
        },
        KeptRevisionNotice::ProxyRejected(reason) => {
            append_total(&mut line, "rejected proxy reload; keeping revision=", kept);
            append_text(&mut line, " reason=", reason.as_str());
        },
        KeptRevisionNotice::ProxyReloadFailed(reason) => {
            append_total(&mut line, "failed proxy reload; keeping revision=", kept);
            append_text(&mut line, " reason=", reason.as_str());
        },
    }
    assert(line@ =~= kept_revision_text(*notice, revision));
    line
}

} // verus!
