//! The principal pickers of the group detail page: every search gets a sequence number and
//! only the answer to the latest search replaces the options shown.
use vstd::prelude::*;

verus! {

/// A picker's state: the latest search number, the options shown and the last error.
pub ghost struct PickerView<T> {
    pub seq: u64,
    pub options: Seq<T>,
    pub error: Option<Seq<char>>,
}

/// State of one principal picker (owners or members).
pub struct PrincipalPicker<T> {
    seq: u64,
    options: Vec<T>,
    error: Option<String>,
}

/// Error view.
pub open spec fn error_view(e: Option<String>) -> Option<Seq<char>> {
    match e {
        Some(s) => Some(s@),
        None => None,
    }
}

/// Starting a search takes the next sequence number (saturating at `u64::MAX`).
pub open spec fn begin_spec<T>(s: PickerView<T>) -> PickerView<T> {
    PickerView { seq: if s.seq == u64::MAX { u64::MAX } else { (s.seq + 1) as u64 }, ..s }
}

/// A search's answer: rows replace the options (and clear the error) only when they answer
/// the latest search; an error is shown whichever search it answers.
pub open spec fn finish_spec<T>(s: PickerView<T>, request_id: u64, result: Result<Seq<T>, Seq<char>>) -> PickerView<T> {
    match result {
        Ok(rows) => if request_id == s.seq {
            PickerView { options: rows, error: None, ..s }
        } else {
            s
        },
        Err(e) => PickerView { error: Some(e), ..s },
    }
}

/// Result view.
pub open spec fn result_view<T>(r: Result<Vec<T>, String>) -> Result<Seq<T>, Seq<char>> {
    match r {
        Ok(v) => Ok(v@),
        Err(e) => Err(e@),
    }
}

impl<T> PrincipalPicker<T> {
    pub closed spec fn view(&self) -> PickerView<T> {
        PickerView { seq: self.seq, options: self.options@, error: error_view(self.error) }
    }

    /// A picker before any search: no options, no error.
    pub fn new() -> (r: Self)
        ensures
            r.view() == (PickerView::<T> { seq: 0, options: Seq::empty(), error: None }),
    {
        PrincipalPicker { seq: 0, options: Vec::new(), error: None }
    }

    /// Starts a search (initial options or a query) and returns its number.
    pub fn begin_request(&mut self) -> (id: u64)
        ensures
            final(self).view() == begin_spec(old(self).view()),
            id == final(self).view().seq,
    {
        self.seq = if self.seq == u64::MAX { u64::MAX } else { self.seq + 1 };
        self.seq
    }

    /// Takes the answer to search `request_id`.
    pub fn finish_request(&mut self, request_id: u64, result: Result<Vec<T>, String>)
        ensures
            final(self).view() == finish_spec(old(self).view(), request_id, result_view(result)),
    {
        match result {
            Ok(rows) => {
                if request_id == self.seq {
                    self.options = rows;
                    self.error = None;
                }
            },
            Err(e) => {
                self.error = Some(e);
            },
        }
    }

    /// The options shown.
    pub fn options(&self) -> (r: &Vec<T>)
        ensures
            r@ == self.view().options,
    {
        &self.options
    }

    /// The last error, if any.
    pub fn error(&self) -> (r: Option<&String>)
        ensures
            match r {
                Some(e) => self.view().error == Some(e@),
                None => self.view().error is None,
            },
    {
        match &self.error {
            Some(e) => Some(e),
            None => None,
        }
    }
}

/// An answer to a search that a later search has superseded never replaces the options
/// (short of 2^64 - 1 searches, where the sequence number saturates).
pub proof fn lemma_stale_answer_ignored<T>(s: PickerView<T>, old_id: u64, rows: Seq<T>)
    requires
        old_id <= s.seq,
        s.seq < u64::MAX,
    ensures
        finish_spec(begin_spec(s), old_id, Ok(rows)).options == s.options,
{
}

/// Only rows that answer the latest search change the options, and then the options are
/// those rows; an error answer, to any search, keeps the options and shows the error; rows
/// answering an older search change nothing; no answer changes the sequence number.
pub proof fn lemma_answer_law<T>(s: PickerView<T>, id: u64, result: Result<Seq<T>, Seq<char>>)
    ensures
        ({
            let f = finish_spec(s, id, result);
            &&& f.seq == s.seq
            &&& (f.options != s.options ==> (id == s.seq && result == Ok::<Seq<T>, Seq<char>>(f.options)))
            &&& (result matches Err(e) ==> f.options == s.options && f.error == Some(e))
            &&& (result is Ok && id == s.seq ==> f.options == result->Ok_0 && f.error is None)
            &&& (result is Ok && id != s.seq ==> f == s)
        }),
{
}

/// Starting a search changes nothing but the sequence number, which grows (until it
/// saturates at `u64::MAX`).
pub proof fn lemma_begin_law<T>(s: PickerView<T>)
    ensures
        begin_spec(s).options == s.options,
        begin_spec(s).error == s.error,
        s.seq < u64::MAX ==> begin_spec(s).seq == s.seq + 1,
        s.seq == u64::MAX ==> begin_spec(s).seq == s.seq,
{
}

/// The answer to the latest search replaces the options and clears the error.
pub proof fn lemma_latest_answer_shown<T>(s: PickerView<T>, rows: Seq<T>)
    ensures
        ({
            let b = begin_spec(s);
            let f = finish_spec(b, b.seq, Ok(rows));
            f.options == rows && f.error is None
        }),
{
}

} // verus!
