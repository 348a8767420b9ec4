//! The record handed to the feedback-collection sink: one classified
//! message, with its category, reference and author.

use vstd::prelude::*;

verus! {

/// One classified message, as the feedback sink receives it.
#[derive(Debug)]
pub struct Feedback {
    pub category: String,
    pub reference: String,
    pub content: String,
    pub username: String,
    pub nickname: String,
    pub applied: i64,
    pub source: String,
}

/// The mathematical model of a feedback record.
pub struct FeedbackModel {
    pub category: Seq<char>,
    pub reference: Seq<char>,
    pub content: Seq<char>,
    pub username: Seq<char>,
    pub nickname: Seq<char>,
    pub applied: int,
    pub source: Seq<char>,
}

impl View for Feedback {
    type V = FeedbackModel;

    open spec fn view(&self) -> FeedbackModel {
        FeedbackModel {
            category: self.category@,
            reference: self.reference@,
            content: self.content@,
            username: self.username@,
            nickname: self.nickname@,
            applied: self.applied as int,
            source: self.source@,
        }
    }
}

impl DeepView for Feedback {
    type V = FeedbackModel;

    open spec fn deep_view(&self) -> FeedbackModel {
        self.view()
    }
}

impl Feedback {
    /// A record with the given fields.
    pub fn new(
        category: &str,
        reference: &str,
        content: &str,
        username: &str,
        nickname: &str,
        applied: i64,
        source: &str,
    ) -> (f: Feedback)
        ensures
            f.category@ == category@,
            f.reference@ == reference@,
            f.content@ == content@,
            f.username@ == username@,
            f.nickname@ == nickname@,
            f.applied == applied,
            f.source@ == source@,
    {
        Feedback {
            category: category.to_owned(),
            reference: reference.to_owned(),
            content: content.to_owned(),
            username: username.to_owned(),
            nickname: nickname.to_owned(),
            applied,
            source: source.to_owned(),
        }
    }
}

} // verus!
