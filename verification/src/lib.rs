//! Freebies watches a news feed for free-game announcements and mails each new
//! one exactly once per recency window.
//!
//! This crate is the decision core of that program: the bounded window of
//! titles already mailed, the rules that sort feed items into "mail it",
//! "seen before" and "not a freebie", the text of each mail, and the state
//! machine that drives one pass per hour. The logic is verified. Two outside
//! parsers are called through small wrappers whose contracts are stated and
//! taken on trust: the feed parser of `rss` and the mailbox parser of `lettre`.
//! Network transfers, timers and configuration live with the caller.

pub mod check;
pub mod feed;
pub mod mailer;
pub mod scheduler;
pub mod sent;
pub mod text;
