//! Raw platform records and their normalization into the uniform item type.
//!
//! A fetched page carries records of two shapes: submissions (posts), whose
//! named fields are always present, and comments, all of whose fields are
//! optional because comments can reference deleted parent content.
//! Normalization substitutes the sentinel `"[deleted]"` for the missing
//! comment fields and is a total, pure function over both shapes.

use vstd::prelude::*;

verus! {

/// A post record. The named fields are always present in the platform's
/// responses (`url` is the linked content, absent for pure self posts).
#[derive(Debug, Clone)]
pub struct SubmissionRecord {
    pub author: String,
    pub subreddit: String,
    pub selftext: String,
    pub selftext_html: Option<String>,
    pub permalink: String,
    pub url: Option<String>,
}

/// A comment record. Every field is optional: the platform omits them when
/// the referenced content has been deleted.
#[derive(Debug, Clone)]
pub struct CommentRecord {
    pub author: Option<String>,
    pub subreddit: Option<String>,
    pub body: Option<String>,
    pub body_html: Option<String>,
    pub permalink: Option<String>,
    pub link_url: Option<String>,
}

/// One raw record of a fetched page: either of the two shapes.
#[derive(Debug, Clone)]
pub enum RawRecord {
    Submission(SubmissionRecord),
    Comment(CommentRecord),
}

/// The uniform item emitted by the stream.
#[derive(Clone, Debug, Eq, PartialEq)]
pub struct UpvotedItem {
    pub author: String,
    pub subreddit: String,
    pub html: Option<String>,
    pub text: String,
    pub url: String,
    pub content_url: Option<String>,
}

/// Mathematical model of an [`UpvotedItem`]: each string field as a
/// character sequence.
#[verifier::ext_equal]
pub struct ItemModel {
    pub author: Seq<char>,
    pub subreddit: Seq<char>,
    pub html: Option<Seq<char>>,
    pub text: Seq<char>,
    pub url: Seq<char>,
    pub content_url: Option<Seq<char>>,
}

impl View for UpvotedItem {
    type V = ItemModel;

    open spec fn view(&self) -> ItemModel {
        ItemModel {
            author: self.author@,
            subreddit: self.subreddit@,
            html: opt_view(self.html),
            text: self.text@,
            url: self.url@,
            content_url: opt_view(self.content_url),
        }
    }
}

/// View of an optional string: the character sequence, if present.
pub open spec fn opt_view(o: Option<String>) -> Option<Seq<char>> {
    match o {
        Some(s) => Some(s@),
        None => None,
    }
}

/// The sentinel substituted for data the platform has indicated is
/// unavailable.
pub open spec fn deleted_sentinel() -> Seq<char> {
    "[deleted]"@
}

/// An optional comment field, or the sentinel when it is absent.
pub open spec fn or_deleted(o: Option<String>) -> Seq<char> {
    match o {
        Some(s) => s@,
        None => deleted_sentinel(),
    }
}

/// What normalization returns for each record shape. Submission fields map
/// one-to-one with no substitution; the four named comment fields fall back
/// to the sentinel, while `html` and `content_url` pass through as options.
pub open spec fn normalize_spec(r: RawRecord) -> ItemModel {
    match r {
        RawRecord::Submission(s) => ItemModel {
            author: s.author@,
            subreddit: s.subreddit@,
            html: opt_view(s.selftext_html),
            text: s.selftext@,
            url: s.permalink@,
            content_url: opt_view(s.url),
        },
        RawRecord::Comment(c) => ItemModel {
            author: or_deleted(c.author),
            subreddit: or_deleted(c.subreddit),
            html: opt_view(c.body_html),
            text: or_deleted(c.body),
            url: or_deleted(c.permalink),
            content_url: opt_view(c.link_url),
        },
    }
}

/// Replaces an absent comment field with the `"[deleted]"` sentinel.
fn unwrap_or_deleted(o: Option<String>) -> (r: String)
    ensures
        r@ == or_deleted(o),
{
    match o {
        Some(s) => s,
        None => {
            let d = "[deleted]".to_owned();
            d
        },
    }
}

impl UpvotedItem {
    /// Normalizes one raw record into the uniform item shape. Total over
    /// both record shapes; never fails.
    pub fn from_record(r: RawRecord) -> (item: UpvotedItem)
        ensures
            item@ == normalize_spec(r),
    {
        match r {
            RawRecord::Submission(post_data) => Self {
                author: post_data.author,
                subreddit: post_data.subreddit,
                html: post_data.selftext_html,
                text: post_data.selftext,
                url: post_data.permalink,
                content_url: post_data.url,
            },
            RawRecord::Comment(comment_data) => Self {
                author: unwrap_or_deleted(comment_data.author),
                subreddit: unwrap_or_deleted(comment_data.subreddit),
                html: comment_data.body_html,
                text: unwrap_or_deleted(comment_data.body),
                url: unwrap_or_deleted(comment_data.permalink),
                content_url: comment_data.link_url,
            },
        }
    }
}

/// For every comment record, each of the four named fields that is absent
/// in the source is the `"[deleted]"` sentinel in the normalized item, and
/// each that is present is copied unchanged; `html` and `content_url` pass
/// through as options with no substitution.
pub proof fn lemma_normalize_comment_sentinel(c: CommentRecord)
    ensures
        c.author is None ==> normalize_spec(RawRecord::Comment(c)).author == deleted_sentinel(),
        c.subreddit is None ==> normalize_spec(RawRecord::Comment(c)).subreddit
            == deleted_sentinel(),
        c.body is None ==> normalize_spec(RawRecord::Comment(c)).text == deleted_sentinel(),
        c.permalink is None ==> normalize_spec(RawRecord::Comment(c)).url == deleted_sentinel(),
        c.author matches Some(a) ==> normalize_spec(RawRecord::Comment(c)).author == a@,
        c.subreddit matches Some(s) ==> normalize_spec(RawRecord::Comment(c)).subreddit == s@,
        c.body matches Some(b) ==> normalize_spec(RawRecord::Comment(c)).text == b@,
        c.permalink matches Some(p) ==> normalize_spec(RawRecord::Comment(c)).url == p@,
        normalize_spec(RawRecord::Comment(c)).html == opt_view(c.body_html),
        normalize_spec(RawRecord::Comment(c)).content_url == opt_view(c.link_url),
{
}

/// For every submission record, the normalized item's fields map
/// one-to-one from the source fields with no substitution.
pub proof fn lemma_normalize_submission_identity(s: SubmissionRecord)
    ensures
        normalize_spec(RawRecord::Submission(s)).author == s.author@,
        normalize_spec(RawRecord::Submission(s)).subreddit == s.subreddit@,
        normalize_spec(RawRecord::Submission(s)).html == opt_view(s.selftext_html),
        normalize_spec(RawRecord::Submission(s)).text == s.selftext@,
        normalize_spec(RawRecord::Submission(s)).url == s.permalink@,
        normalize_spec(RawRecord::Submission(s)).content_url == opt_view(s.url),
{
}

} // verus!
