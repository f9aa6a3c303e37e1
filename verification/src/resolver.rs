//! From a selector and the directory to exactly one service, or a failure.
//!
//! Resolution never asks the user by itself. `plan_resolution` decides what
//! can be decided from the selector and the directory alone and says when a
//! choice by the user is needed; `conclude_selection` takes that choice.
//! `resolve` does both for a caller that has the answer at hand.

use vstd::prelude::*;
use crate::directory::{models, scope_name, scope_text, RecordModel, ServiceRecord};
use crate::names::{
    family_prefix, has_prefix, lemma_with_prefix_carries, prefixed, unprefixed, with_prefix,
    without_prefix,
};
use crate::selector::{selector_view, SelectorModel, ServiceSelector};
use crate::text::{chars_of, chain, string_of, string_views};

verus! {

/// Why no service was resolved.
#[derive(Clone, Copy, Debug, PartialEq, Eq, Structural)]
pub enum ResolveError {
    /// The directory is empty.
    NoServicesFound,
    /// More than one service fits and the selector does not tell them apart.
    AmbiguousSelection,
    /// The selector asks for all services at once.
    BulkUnsupported,
    /// No service has the name asked for.
    NotFound,
    /// The user gave no choice when asked.
    SelectionCancelled,
}

/// What the user answered when asked to pick a service.
#[derive(Debug, PartialEq, Eq)]
pub enum PromptReply {
    /// The label that was picked.
    Chosen(String),
    /// The prompt was left without a pick.
    Cancelled,
}

/// What `plan_resolution` found.
#[derive(Debug, PartialEq, Eq)]
pub enum Resolution {
    /// This is the service.
    Found(ServiceRecord),
    /// The user has to pick among these labels, one per record of the
    /// directory, in its order.
    Prompt(Vec<String>),
    /// No service can be resolved.
    Failed(ResolveError),
}

/// What a `Resolution` stands for.
pub enum ResolutionModel {
    Found(RecordModel),
    Prompt(Seq<Seq<char>>),
    Failed(ResolveError),
}

impl View for Resolution {
    type V = ResolutionModel;

    open spec fn view(&self) -> ResolutionModel {
        match self {
            Resolution::Found(r) => ResolutionModel::Found(r@),
            Resolution::Prompt(labels) => ResolutionModel::Prompt(string_views(labels@)),
            Resolution::Failed(e) => ResolutionModel::Failed(*e),
        }
    }
}

/// What a resolved record or a failure stands for.
pub open spec fn result_view(r: Result<ServiceRecord, ResolveError>) -> Result<
    RecordModel,
    ResolveError,
> {
    match r {
        Ok(record) => Ok(record@),
        Err(e) => Err(e),
    }
}

/// The label under which a record is offered: its name without the family
/// prefix, then its scope in round brackets.
pub open spec fn label_of(record: RecordModel) -> Seq<char> {
    without_prefix(record.name) + " ("@ + scope_text(record.scope) + ")"@
}

/// The labels of a directory, one per record, in its order.
pub open spec fn labels_of(directory: Seq<RecordModel>) -> Seq<Seq<char>> {
    directory.map_values(|r: RecordModel| label_of(r))
}

/// The records of `directory` whose name is `name`, in its order.
pub open spec fn named(directory: Seq<RecordModel>, name: Seq<char>) -> Seq<RecordModel> {
    directory.filter(|r: RecordModel| r.name == name)
}

/// What selector and directory decide by themselves.
pub open spec fn planned(
    selector: Option<SelectorModel>,
    directory: Seq<RecordModel>,
) -> ResolutionModel {
    if directory.len() == 0 {
        ResolutionModel::Failed(ResolveError::NoServicesFound)
    } else {
        match selector {
            None => if directory.len() == 1 {
                ResolutionModel::Found(directory[0])
            } else {
                ResolutionModel::Prompt(labels_of(directory))
            },
            Some(SelectorModel::Auto) => if directory.len() == 1 {
                ResolutionModel::Found(directory[0])
            } else {
                ResolutionModel::Failed(ResolveError::AmbiguousSelection)
            },
            Some(SelectorModel::All) => ResolutionModel::Failed(ResolveError::BulkUnsupported),
            Some(SelectorModel::Interactive) => ResolutionModel::Prompt(labels_of(directory)),
            Some(SelectorModel::Custom(name)) => {
                let hits = named(directory, with_prefix(name));
                if hits.len() == 0 {
                    ResolutionModel::Failed(ResolveError::NotFound)
                } else if hits.len() == 1 {
                    ResolutionModel::Found(hits[0])
                } else {
                    ResolutionModel::Failed(ResolveError::AmbiguousSelection)
                }
            },
        }
    }
}

/// The first position of `labels` that holds `text`.
pub open spec fn position_of(labels: Seq<Seq<char>>, text: Seq<char>) -> Option<int>
    decreases labels.len(),
{
    if labels.len() == 0 {
        None
    } else if labels[0] == text {
        Some(0)
    } else {
        match position_of(labels.drop_first(), text) {
            Some(i) => Some(i + 1),
            None => None,
        }
    }
}

/// The view of a reply: the picked label, or `None` for a cancelled prompt.
pub open spec fn reply_view(reply: PromptReply) -> Option<Seq<char>> {
    match reply {
        PromptReply::Chosen(label) => Some(label@),
        PromptReply::Cancelled => None,
    }
}

/// The record that a reply picks: the first one whose label is the picked
/// one. A cancelled prompt picks none, and neither does a label that no
/// record has.
pub open spec fn chosen(directory: Seq<RecordModel>, reply: Option<Seq<char>>) -> Result<
    RecordModel,
    ResolveError,
> {
    match reply {
        None => Err(ResolveError::SelectionCancelled),
        Some(label) => match position_of(labels_of(directory), label) {
            Some(i) => Ok(directory[i]),
            None => Err(ResolveError::NotFound),
        },
    }
}

/// The service that selector, directory and the user's reply resolve to.
/// The reply counts only where `planned` asks for it.
pub open spec fn resolved(
    selector: Option<SelectorModel>,
    directory: Seq<RecordModel>,
    reply: Option<Seq<char>>,
) -> Result<RecordModel, ResolveError> {
    match planned(selector, directory) {
        ResolutionModel::Found(record) => Ok(record),
        ResolutionModel::Failed(e) => Err(e),
        ResolutionModel::Prompt(_) => chosen(directory, reply),
    }
}

/// Where `text` stands at `i` and nowhere before, `i` is its position.
pub proof fn lemma_position_of_first(labels: Seq<Seq<char>>, text: Seq<char>, i: int)
    requires
        0 <= i < labels.len(),
        labels[i] == text,
        forall|j: int| 0 <= j < i ==> labels[j] != text,
    ensures
        position_of(labels, text) == Some(i),
    decreases i,
{
    if i > 0 {
        let rest = labels.drop_first();
        assert(forall|j: int| 0 <= j < i - 1 ==> rest[j] == labels[j + 1]);
        lemma_position_of_first(rest, text, i - 1);
    }
}

/// Where `text` stands nowhere, it has no position.
pub proof fn lemma_position_of_none(labels: Seq<Seq<char>>, text: Seq<char>)
    requires
        forall|j: int| 0 <= j < labels.len() ==> labels[j] != text,
    ensures
        position_of(labels, text) is None,
    decreases labels.len(),
{
    if labels.len() > 0 {
        let rest = labels.drop_first();
        assert(forall|j: int| 0 <= j < rest.len() ==> rest[j] == labels[j + 1]);
        lemma_position_of_none(rest, text);
    }
}

/// Where exactly one record of a directory has a name, the records of that
/// name are that one record.
pub proof fn lemma_named_unique(directory: Seq<RecordModel>, name: Seq<char>, i: int)
    requires
        0 <= i < directory.len(),
        directory[i].name == name,
        forall|j: int| 0 <= j < directory.len() && j != i ==> directory[j].name != name,
    ensures
        named(directory, name) == seq![directory[i]],
    decreases directory.len(),
{
    reveal(Seq::filter);
    let pred = |r: RecordModel| r.name == name;
    let front = directory.drop_last();
    if i == directory.len() - 1 {
        lemma_named_none(front, name);
        assert(named(directory, name) =~= seq![directory[i]]);
    } else {
        lemma_named_unique(front, name, i);
        assert(!pred(directory.last()));
        assert(named(directory, name) =~= seq![directory[i]]);
    }
}

/// Where no record of a directory has a name, the records of that name are
/// none.
pub proof fn lemma_named_none(directory: Seq<RecordModel>, name: Seq<char>)
    requires
        forall|j: int| 0 <= j < directory.len() ==> directory[j].name != name,
    ensures
        named(directory, name).len() == 0,
    decreases directory.len(),
{
    reveal(Seq::filter);
    if directory.len() > 0 {
        lemma_named_none(directory.drop_last(), name);
    }
}

/// A name resolves to the one record that bears it, whether the selector
/// spells the name with the family prefix or without: where exactly one
/// record of the directory is named by the prefix followed by `name`, both
/// spellings resolve to that record, whatever the reply.
pub proof fn lemma_custom_resolves_either_spelling(
    directory: Seq<RecordModel>,
    name: Seq<char>,
    i: int,
    reply: Option<Seq<char>>,
)
    requires
        !has_prefix(name),
        0 <= i < directory.len(),
        directory[i].name == family_prefix() + name,
        forall|j: int|
            0 <= j < directory.len() && j != i ==> directory[j].name != family_prefix() + name,
    ensures
        resolved(Some(SelectorModel::Custom(name)), directory, reply) == Ok::<
            RecordModel,
            ResolveError,
        >(directory[i]),
        resolved(Some(SelectorModel::Custom(family_prefix() + name)), directory, reply) == Ok::<
            RecordModel,
            ResolveError,
        >(directory[i]),
{
    let full = family_prefix() + name;
    lemma_with_prefix_carries(name);
    assert(with_prefix(name) == full);
    assert(with_prefix(full) == full);
    lemma_named_unique(directory, full, i);
}

/// The selector for all services resolves to nothing: on an empty directory
/// it fails as every selector does there, on any other because bulk
/// operations are not offered.
pub proof fn lemma_all_always_fails(directory: Seq<RecordModel>, reply: Option<Seq<char>>)
    ensures
        resolved(Some(SelectorModel::All), directory, reply) is Err,
        directory.len() > 0 ==> resolved(Some(SelectorModel::All), directory, reply) == Err::<
            RecordModel,
            ResolveError,
        >(ResolveError::BulkUnsupported),
{
}

/// The automatic selector resolves to the only record of a directory of
/// one, and fails as ambiguous on a directory of two or more.
pub proof fn lemma_auto(directory: Seq<RecordModel>, reply: Option<Seq<char>>)
    ensures
        directory.len() == 1 ==> resolved(Some(SelectorModel::Auto), directory, reply) == Ok::<
            RecordModel,
            ResolveError,
        >(directory[0]),
        directory.len() >= 2 ==> resolved(Some(SelectorModel::Auto), directory, reply) == Err::<
            RecordModel,
            ResolveError,
        >(ResolveError::AmbiguousSelection),
{
}

/// On an empty directory every selector fails in the same way.
pub proof fn lemma_empty_directory(selector: Option<SelectorModel>, reply: Option<Seq<char>>)
    ensures
        resolved(selector, Seq::empty(), reply) == Err::<RecordModel, ResolveError>(
            ResolveError::NoServicesFound,
        ),
{
}

/// A record that resolution returns is a record of the directory, and one
/// that a name resolved to bears that name with the family prefix.
pub proof fn lemma_resolved_is_listed(
    selector: Option<SelectorModel>,
    directory: Seq<RecordModel>,
    reply: Option<Seq<char>>,
)
    ensures
        resolved(selector, directory, reply) matches Ok(record) ==> directory.contains(record),
        selector matches Some(SelectorModel::Custom(name)) ==> (resolved(
            selector,
            directory,
            reply,
        ) matches Ok(record) ==> record.name == with_prefix(name)),
{
    match planned(selector, directory) {
        ResolutionModel::Found(record) => {
            match selector {
                Some(SelectorModel::Custom(name)) => {
                    lemma_filter_is_listed(directory, with_prefix(name), 0);
                },
                _ => {
                    assert(directory[0] == record);
                },
            }
        },
        ResolutionModel::Failed(e) => {},
        ResolutionModel::Prompt(_) => {
            match reply {
                Some(label) => {
                    lemma_position_in_range(labels_of(directory), label);
                },
                None => {},
            }
        },
    }
}

/// A position that `position_of` gives lies inside the list and holds the
/// text.
pub proof fn lemma_position_in_range(labels: Seq<Seq<char>>, text: Seq<char>)
    ensures
        position_of(labels, text) matches Some(i) ==> 0 <= i < labels.len() && labels[i] == text,
    decreases labels.len(),
{
    if labels.len() > 0 && labels[0] != text {
        lemma_position_in_range(labels.drop_first(), text);
    }
}

/// Each record among those of a name is a record of the directory and has
/// that name.
pub proof fn lemma_filter_is_listed(directory: Seq<RecordModel>, name: Seq<char>, k: int)
    requires
        0 <= k < named(directory, name).len(),
    ensures
        directory.contains(named(directory, name)[k]),
        named(directory, name)[k].name == name,
    decreases directory.len(),
{
    reveal(Seq::filter);
    if directory.len() > 0 {
        let front = directory.drop_last();
        if k < named(front, name).len() {
            lemma_filter_is_listed(front, name, k);
            let r = named(front, name)[k];
            let j = choose|j: int| 0 <= j < front.len() && front[j] == r;
            assert(directory[j] == r);
        } else {
            assert(directory[directory.len() - 1] == directory.last());
        }
    }
}

/// The label under which `record` is offered.
pub fn label(record: &ServiceRecord) -> (out: String)
    ensures
        out@ == label_of(record@),
{
    let bare = unprefixed(record.name.as_str());
    let a = chain(chars_of(bare.as_str()).as_slice(), chars_of(" (").as_slice());
    let b = chain(a.as_slice(), chars_of(scope_name(record.scope)).as_slice());
    let c = chain(b.as_slice(), chars_of(")").as_slice());
    string_of(c.as_slice())
}

/// The labels of `directory`, one per record, in its order.
pub fn labels(directory: &Vec<ServiceRecord>) -> (out: Vec<String>)
    ensures
        string_views(out@) == labels_of(models(directory@)),
{
    let mut out: Vec<String> = Vec::new();
    let mut i: usize = 0;
    while i < directory.len()
        invariant
            i <= directory.len(),
            string_views(out@) == labels_of(models(directory@).take(i as int)),
        decreases directory.len() - i,
    {
        let ghost before = string_views(out@);
        let text = label(&directory[i]);
        out.push(text);
        assert(string_views(out@) == before.push(text@));
        assert(models(directory@).take(i + 1) == models(directory@).take(i as int).push(
            directory@[i as int]@,
        ));
        i += 1;
    }
    assert(models(directory@).take(directory.len() as int) == models(directory@));
    out
}

/// The records of `directory` that bear `name`: how many there are, and
/// where the first of them stands.
fn find_named(directory: &Vec<ServiceRecord>, name: &String) -> (out: (usize, usize))
    ensures
        out.0 == named(models(directory@), name@).len(),
        out.0 > 0 ==> out.1 < directory.len() && directory@[out.1 as int]@ == named(
            models(directory@),
            name@,
        )[0],
{
    let ghost all = models(directory@);
    let mut count: usize = 0;
    let mut first: usize = 0;
    let mut i: usize = 0;
    proof {
        reveal(Seq::filter);
        assert(all.take(0) == Seq::<RecordModel>::empty());
    }
    while i < directory.len()
        invariant
            i <= directory.len(),
            all == models(directory@),
            count == named(all.take(i as int), name@).len(),
            count <= i,
            count > 0 ==> first < i && all[first as int] == named(all.take(i as int), name@)[0],
        decreases directory.len() - i,
    {
        proof {
            reveal(Seq::filter);
            assert(all.take(i + 1).drop_last() == all.take(i as int));
            assert(all.take(i + 1).last() == directory@[i as int]@);
        }
        if directory[i].name == *name {
            if count == 0 {
                first = i;
            }
            count += 1;
        }
        i += 1;
    }
    assert(all.take(directory.len() as int) == all);
    (count, first)
}

/// What selector and directory decide by themselves: the service, a
/// failure, or that the user has to pick among the labels handed back.
pub fn plan_resolution(selector: &Option<ServiceSelector>, directory: &Vec<ServiceRecord>) -> (out:
    Resolution)
    ensures
        out@ == planned(selector_view(*selector), models(directory@)),
{
    if directory.len() == 0 {
        return Resolution::Failed(ResolveError::NoServicesFound);
    }
    match selector {
        None => {
            if directory.len() == 1 {
                Resolution::Found(directory[0].duplicate())
            } else {
                Resolution::Prompt(labels(directory))
            }
        },
        Some(ServiceSelector::Auto) => {
            if directory.len() == 1 {
                Resolution::Found(directory[0].duplicate())
            } else {
                Resolution::Failed(ResolveError::AmbiguousSelection)
            }
        },
        Some(ServiceSelector::All) => Resolution::Failed(ResolveError::BulkUnsupported),
        Some(ServiceSelector::Interactive) => Resolution::Prompt(labels(directory)),
        Some(ServiceSelector::Custom(name)) => {
            let full = prefixed(name.as_str());
            let (count, first) = find_named(directory, &full);
            if count == 0 {
                Resolution::Failed(ResolveError::NotFound)
            } else if count == 1 {
                Resolution::Found(directory[first].duplicate())
            } else {
                Resolution::Failed(ResolveError::AmbiguousSelection)
            }
        },
    }
}

/// The record that the user's reply picks from `directory`.
pub fn conclude_selection(directory: &Vec<ServiceRecord>, reply: &PromptReply) -> (out: Result<
    ServiceRecord,
    ResolveError,
>)
    ensures
        result_view(out) == chosen(models(directory@), reply_view(*reply)),
{
    match reply {
        PromptReply::Cancelled => Err(ResolveError::SelectionCancelled),
        PromptReply::Chosen(picked) => {
            let ghost all = labels_of(models(directory@));
            let mut i: usize = 0;
            while i < directory.len()
                invariant
                    i <= directory.len(),
                    all == labels_of(models(directory@)),
                    reply_view(*reply) == Some(picked@),
                    forall|j: int| 0 <= j < i ==> all[j] != picked@,
                decreases directory.len() - i,
            {
                let text = label(&directory[i]);
                assert(all[i as int] == text@);
                if text == *picked {
                    proof {
                        assert(models(directory@)[i as int] == directory@[i as int]@);
                        lemma_position_of_first(all, picked@, i as int);
                    }
                    return Ok(directory[i].duplicate());
                }
                i += 1;
            }
            proof {
                lemma_position_of_none(all, picked@);
            }
            Err(ResolveError::NotFound)
        },
    }
}

/// The service that selector, directory and reply resolve to. The reply is
/// looked at only where selector and directory leave the choice to the
/// user.
pub fn resolve(
    selector: &Option<ServiceSelector>,
    directory: &Vec<ServiceRecord>,
    reply: &PromptReply,
) -> (out: Result<ServiceRecord, ResolveError>)
    ensures
        result_view(out) == resolved(
            selector_view(*selector),
            models(directory@),
            reply_view(*reply),
        ),
{
    match plan_resolution(selector, directory) {
        Resolution::Found(record) => Ok(record),
        Resolution::Failed(e) => Err(e),
        Resolution::Prompt(_) => conclude_selection(directory, reply),
    }
}

} // verus!
