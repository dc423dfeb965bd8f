//! One pass over the feed: which items are mailed, which are skipped, and
//! when the pass must stop.

use crate::feed::{models, FeedError, FeedItem, ItemModel};
use crate::sent::{remembered, Sent};
use crate::text::{contains_text, occurs_in, parse_desc, plain_text};
use vstd::prelude::*;
use vstd::string::StringExecFns;

verus! {

/// A field that every mailed item must carry.
#[derive(Clone, Copy, Debug, PartialEq, Eq, Structural)]
pub enum Field {
    Title,
    Description,
    Link,
    PubDate,
    Author,
}

/// One mail to send: the item's title as subject, and the body made from its
/// other fields.
#[derive(Debug)]
pub struct Notification {
    pub subject: String,
    pub body: String,
}

/// A notification as contracts see it.
pub struct NoteModel {
    pub subject: Seq<char>,
    pub body: Seq<char>,
}

impl View for Notification {
    type V = NoteModel;

    open spec fn view(&self) -> NoteModel {
        NoteModel { subject: self.subject@, body: self.body@ }
    }
}

/// The models of a run of notifications, in the same order.
pub open spec fn notes(notifications: Seq<Notification>) -> Seq<NoteModel> {
    notifications.map_values(|n: Notification| n@)
}

/// What is done with one feed item.
#[derive(Debug)]
pub enum Decision {
    /// The title does not announce a freebie: nothing happens.
    Ignore,
    /// The title is in the window of titles already mailed: nothing happens.
    Duplicate,
    /// The item is new: its title has been remembered and this mail is due.
    Notify(Notification),
    /// The item lacks a required field. The feed broke its promise, and the
    /// program must stop.
    Malformed(Field),
}

/// A decision as contracts see it.
pub enum DecisionModel {
    Ignore,
    Duplicate,
    Notify(NoteModel),
    Malformed(Field),
}

impl View for Decision {
    type V = DecisionModel;

    open spec fn view(&self) -> DecisionModel {
        match *self {
            Decision::Ignore => DecisionModel::Ignore,
            Decision::Duplicate => DecisionModel::Duplicate,
            Decision::Notify(n) => DecisionModel::Notify(n@),
            Decision::Malformed(field) => DecisionModel::Malformed(field),
        }
    }
}

/// A title announces a freebie when it contains `FREE`, in capitals.
pub open spec fn is_free(title: Seq<char>) -> bool {
    occurs_in("FREE"@, title)
}

/// The body of a mail: four labelled lines, in this order.
pub open spec fn body_text(
    summary: Seq<char>,
    link: Seq<char>,
    published: Seq<char>,
    author: Seq<char>,
) -> Seq<char> {
    "Description: "@ + summary + "\nLink: "@ + link + "\nPublished: "@ + published + "\nAuthor: "@
        + author
}

/// The decision on `item`, given the titles already mailed.
///
/// The title is read first, so an item without one is malformed whatever else
/// it holds. The other fields are read only for an item that is about to be
/// mailed, in the order description, link, publication date, author.
pub open spec fn decision_on(window: Seq<Seq<char>>, item: ItemModel) -> DecisionModel {
    match item.title {
        None => DecisionModel::Malformed(Field::Title),
        Some(title) => {
            if !is_free(title) {
                DecisionModel::Ignore
            } else if window.contains(title) {
                DecisionModel::Duplicate
            } else if item.description is None {
                DecisionModel::Malformed(Field::Description)
            } else if item.link is None {
                DecisionModel::Malformed(Field::Link)
            } else if item.pub_date is None {
                DecisionModel::Malformed(Field::PubDate)
            } else if item.author is None {
                DecisionModel::Malformed(Field::Author)
            } else {
                DecisionModel::Notify(
                    NoteModel {
                        subject: title,
                        body: body_text(
                            plain_text(item.description->0),
                            item.link->0,
                            item.pub_date->0,
                            item.author->0,
                        ),
                    },
                )
            }
        },
    }
}

/// Whether `item` is a freebie that the window does not hold: the items whose
/// title gets remembered.
pub open spec fn is_fresh(window: Seq<Seq<char>>, item: ItemModel) -> bool {
    item.title matches Some(title) && is_free(title) && !window.contains(title)
}

/// The window after `item` has been decided on. A fresh freebie is remembered
/// before its other fields are read, so it is remembered even if one of them
/// turns out to be missing.
pub open spec fn window_after(window: Seq<Seq<char>>, max: nat, item: ItemModel) -> Seq<Seq<char>> {
    if is_fresh(window, item) {
        remembered(window, max, item.title->0)
    } else {
        window
    }
}

/// Writes the body of a mail.
pub fn compose_body(summary: &str, link: &str, published: &str, author: &str) -> (body: String)
    ensures
        body@ == body_text(summary@, link@, published@, author@),
{
    let mut body = String::new();
    body.append("Description: ");
    body.append(summary);
    body.append("\nLink: ");
    body.append(link);
    body.append("\nPublished: ");
    body.append(published);
    body.append("\nAuthor: ");
    body.append(author);
    body
}

/// Decides on one feed item and, for a fresh freebie, remembers its title.
///
/// The title is remembered before the mail goes out, so that an item is mailed
/// at most once even if sending fails afterwards.
pub fn decide(sent: &mut Sent, item: &FeedItem) -> (decision: Decision)
    ensures
        decision@ == decision_on(old(sent)@, item@),
        final(sent)@ == window_after(old(sent)@, old(sent).capacity(), item@),
        final(sent).capacity() == old(sent).capacity(),
{
    let title = match &item.title {
        None => {
            return Decision::Malformed(Field::Title);
        },
        Some(title) => title,
    };
    if !contains_text(title.as_str(), "FREE") {
        return Decision::Ignore;
    }
    if sent.contains(title.clone()) {
        return Decision::Duplicate;
    }
    sent.add(title.clone());
    let description = match &item.description {
        None => {
            return Decision::Malformed(Field::Description);
        },
        Some(description) => description,
    };
    let link = match &item.link {
        None => {
            return Decision::Malformed(Field::Link);
        },
        Some(link) => link,
    };
    let published = match &item.pub_date {
        None => {
            return Decision::Malformed(Field::PubDate);
        },
        Some(published) => published,
    };
    let author = match &item.author {
        None => {
            return Decision::Malformed(Field::Author);
        },
        Some(author) => author,
    };
    let summary = parse_desc(description.as_str());
    let body = compose_body(summary.as_str(), link.as_str(), published.as_str(), author.as_str());
    Decision::Notify(Notification { subject: title.clone(), body })
}

/// How a pass ended.
#[derive(Debug)]
pub enum Outcome {
    /// Every item of the feed was decided on.
    Completed,
    /// There was no feed to work on. Nothing was mailed, and the next pass is
    /// not affected.
    FeedUnavailable(FeedError),
    /// The item at `index` lacks the field `missing`. The pass stopped there
    /// and the program must stop too, once the mails already due are out.
    Fatal { index: usize, missing: Field },
}

/// What a pass asks of the caller: the mails to send, in feed order, and how
/// the pass ended.
#[derive(Debug)]
pub struct Report {
    pub notifications: Vec<Notification>,
    pub outcome: Outcome,
}

/// The effect of a pass over a run of items.
pub struct PassModel {
    /// The window of mailed titles when the pass ends.
    pub window: Seq<Seq<char>>,
    /// The mails due, in feed order.
    pub notes: Seq<NoteModel>,
    /// The index of the malformed item that stopped the pass, and the field it
    /// lacks.
    pub halted: Option<(int, Field)>,
}

/// The effect of deciding on `items` one after another, starting with
/// `window`, until the items run out or one of them is malformed.
pub open spec fn pass(window: Seq<Seq<char>>, max: nat, items: Seq<ItemModel>) -> PassModel
    decreases items.len(),
{
    if items.len() == 0 {
        PassModel { window, notes: Seq::empty(), halted: None }
    } else {
        let before = pass(window, max, items.drop_last());
        if before.halted is Some {
            before
        } else {
            let item = items.last();
            let window = window_after(before.window, max, item);
            match decision_on(before.window, item) {
                DecisionModel::Notify(note) => PassModel {
                    window,
                    notes: before.notes.push(note),
                    halted: None,
                },
                DecisionModel::Malformed(field) => PassModel {
                    window,
                    notes: before.notes,
                    halted: Some((items.len() - 1, field)),
                },
                _ => PassModel { window, notes: before.notes, halted: None },
            }
        }
    }
}

/// Runs one pass over the items of a feed, in feed order.
///
/// Each item is decided on with the window as the items before it left it, so
/// a title that occurs twice in one feed is mailed once. The pass stops at the
/// first malformed item; the mails that were due before it are still
/// reported.
pub fn check_items(sent: &mut Sent, items: Vec<FeedItem>) -> (report: Report)
    ensures
        final(sent)@ == pass(old(sent)@, old(sent).capacity(), models(items@)).window,
        final(sent).capacity() == old(sent).capacity(),
        notes(report.notifications@) == pass(
            old(sent)@,
            old(sent).capacity(),
            models(items@),
        ).notes,
        match pass(old(sent)@, old(sent).capacity(), models(items@)).halted {
            None => report.outcome is Completed,
            Some((index, missing)) => report.outcome == (Outcome::Fatal {
                index: index as usize,
                missing,
            }) && index < items@.len(),
        },
{
    let ghost all = models(items@);
    let ghost max = sent.capacity();
    let mut notifications: Vec<Notification> = Vec::new();
    let mut index: usize = 0;
    while index < items.len()
        invariant
            index <= items@.len(),
            all == models(items@),
            sent.capacity() == max == old(sent).capacity(),
            sent@ == pass(old(sent)@, max, all.take(index as int)).window,
            notes(notifications@) == pass(old(sent)@, max, all.take(index as int)).notes,
            pass(old(sent)@, max, all.take(index as int)).halted is None,
        decreases items@.len() - index,
    {
        assert(all.take(index + 1).drop_last() =~= all.take(index as int));
        match decide(sent, &items[index]) {
            Decision::Notify(notification) => {
                notifications.push(notification);
            },
            Decision::Malformed(missing) => {
                proof {
                    lemma_pass_stays_halted(old(sent)@, max, all, index + 1);
                }
                return Report { notifications, outcome: Outcome::Fatal { index, missing } };
            },
            _ => {},
        }
        index += 1;
    }
    assert(all.take(index as int) =~= all);
    Report { notifications, outcome: Outcome::Completed }
}

/// Runs one pass, given the feed or the reason there is none.
///
/// Without a feed nothing is mailed and nothing is remembered: the failure is
/// reported and ends with this pass.
pub fn check(sent: &mut Sent, feed: Result<Vec<FeedItem>, FeedError>) -> (report: Report)
    ensures
        final(sent).capacity() == old(sent).capacity(),
        match feed {
            Err(error) => {
                &&& final(sent)@ == old(sent)@
                &&& report.notifications@.len() == 0
                &&& report.outcome == Outcome::FeedUnavailable(error)
            },
            Ok(items) => {
                let effect = pass(old(sent)@, old(sent).capacity(), models(items@));
                &&& final(sent)@ == effect.window
                &&& notes(report.notifications@) == effect.notes
                &&& match effect.halted {
                    None => report.outcome is Completed,
                    Some((index, missing)) => report.outcome == (Outcome::Fatal {
                        index: index as usize,
                        missing,
                    }) && index < items@.len(),
                }
            },
        },
{
    match feed {
        Err(error) => Report { notifications: Vec::new(), outcome: Outcome::FeedUnavailable(error) },
        Ok(items) => check_items(sent, items),
    }
}

/// Once a pass has stopped at a malformed item, the items after it change
/// nothing.
pub proof fn lemma_pass_stays_halted(
    window: Seq<Seq<char>>,
    max: nat,
    items: Seq<ItemModel>,
    upto: int,
)
    requires
        0 <= upto <= items.len(),
        pass(window, max, items.take(upto)).halted is Some,
    ensures
        pass(window, max, items) == pass(window, max, items.take(upto)),
    decreases items.len() - upto,
{
    if upto == items.len() {
        assert(items.take(upto) =~= items);
    } else {
        assert(items.take(upto + 1).drop_last() =~= items.take(upto));
        lemma_pass_stays_halted(window, max, items, upto + 1);
    }
}

/// A pass without a feed mails nothing and leaves the window as it was, so
/// the pass after it finds exactly what it would have found without the
/// failure.
pub proof fn lemma_no_items_no_effect(window: Seq<Seq<char>>, max: nat)
    ensures
        pass(window, max, Seq::empty()) == (PassModel {
            window,
            notes: Seq::empty(),
            halted: None,
        }),
{
}

/// A fresh freebie that lacks its publication date is never mailed and never
/// passed over: the decision is that the item is malformed. Which field is
/// named depends on what else is missing; with description and link present
/// it is the publication date.
pub proof fn lemma_missing_date_is_malformed(window: Seq<Seq<char>>, item: ItemModel)
    requires
        is_fresh(window, item),
        item.pub_date is None,
    ensures
        decision_on(window, item) is Malformed,
        item.description is Some && item.link is Some ==> decision_on(window, item)
            == DecisionModel::Malformed(Field::PubDate),
{
}

/// A pass that reaches a fresh freebie without a publication date stops at
/// that item: nothing is mailed for it, and the mails due before it stay as
/// they were.
pub proof fn lemma_missing_date_halts_pass(
    window: Seq<Seq<char>>,
    max: nat,
    items: Seq<ItemModel>,
    item: ItemModel,
)
    requires
        pass(window, max, items).halted is None,
        is_fresh(pass(window, max, items).window, item),
        item.pub_date is None,
    ensures
        pass(window, max, items.push(item)).halted matches Some((index, _)) && index
            == items.len(),
        pass(window, max, items.push(item)).notes == pass(window, max, items).notes,
{
    assert(items.push(item).drop_last() =~= items);
}

/// Every mail of a pass is for a freebie: its subject contains `FREE`. There
/// is at most one mail per item.
pub proof fn lemma_notes_are_free(window: Seq<Seq<char>>, max: nat, items: Seq<ItemModel>)
    ensures
        pass(window, max, items).notes.len() <= items.len(),
        forall|k: int|
            0 <= k < pass(window, max, items).notes.len() ==> is_free(
                #[trigger] pass(window, max, items).notes[k].subject,
            ),
    decreases items.len(),
{
    if items.len() > 0 {
        lemma_notes_are_free(window, max, items.drop_last());
    }
}

/// The window stays within its capacity through a pass.
pub proof fn lemma_pass_keeps_bound(window: Seq<Seq<char>>, max: nat, items: Seq<ItemModel>)
    requires
        window.len() <= max,
    ensures
        pass(window, max, items).window.len() <= max,
    decreases items.len(),
{
    if items.len() > 0 {
        lemma_pass_keeps_bound(window, max, items.drop_last());
    }
}

} // verus!
