//! A single writer for a listing: it frames records one at a time, in the
//! order they are handed over, and on the first failure closes the document
//! over the records already written and takes no more.
use vstd::prelude::*;
use crate::encode::{
    OutputEncoding, body, closing, document, opening, record_text, serialize_entry_info,
    unit_text,
};
use crate::entry::{EntryInfo, ListingError};

verus! {

/// Where a listing's writer stands.
#[derive(Clone, Copy, Debug, PartialEq, Eq, Structural)]
pub enum StreamState {
    /// Records are taken.
    Open,
    /// A failure was met: only closing remains.
    Failed,
    /// The document is complete.
    Closed,
}

/// The writer of one listing.
pub struct RecordStream {
    encoding: OutputEncoding,
    has_records: bool,
    state: StreamState,
    records: Ghost<Seq<EntryInfo>>,
    written: Ghost<Seq<char>>,
}

impl RecordStream {
    pub closed spec fn encoding(&self) -> OutputEncoding {
        self.encoding
    }

    pub closed spec fn state(&self) -> StreamState {
        self.state
    }

    /// The records written so far, in order.
    pub closed spec fn records(&self) -> Seq<EntryInfo> {
        self.records@
    }

    /// All text handed out so far.
    pub closed spec fn written(&self) -> Seq<char> {
        self.written@
    }

    pub closed spec fn wf(&self) -> bool {
        &&& self.has_records == (self.records@.len() > 0)
        &&& self.state != StreamState::Closed ==> self.written@ == opening(self.encoding) + body(
            self.encoding,
            self.records@,
        )
        &&& self.state == StreamState::Closed ==> self.written@ == document(
            self.encoding,
            self.records@,
        )
    }

    /// Starts a listing; the text returned is the document's opening.
    pub fn open(encoding: OutputEncoding) -> (r: (RecordStream, String))
        ensures
            r.0.wf(),
            r.0.encoding() == encoding,
            r.0.state() == StreamState::Open,
            r.0.records() == Seq::<EntryInfo>::empty(),
            r.1@ == opening(encoding),
            r.0.written() == r.1@,
    {
        let text = match encoding {
            OutputEncoding::Json => String::from_str("["),
            OutputEncoding::Jsonl => String::new(),
            OutputEncoding::Nuon => String::from_str("[[name, type, size, modified, git, accessed]; "),
        };
        let s = RecordStream {
            encoding,
            has_records: false,
            state: StreamState::Open,
            records: Ghost(Seq::empty()),
            written: Ghost(text@),
        };
        proof {
            assert(body(encoding, Seq::<EntryInfo>::empty()) == Seq::<char>::empty());
            assert(text@ == opening(encoding) + Seq::<char>::empty());
        }
        (s, text)
    }

    /// Takes the next result in order. A record is written and its text
    /// returned; a failure is returned and leaves the writer failed with
    /// nothing more written.
    pub fn accept(&mut self, result: Result<EntryInfo, ListingError>) -> (r: Result<String, ListingError>)
        requires
            old(self).wf(),
            old(self).state() == StreamState::Open,
        ensures
            final(self).wf(),
            final(self).encoding() == old(self).encoding(),
            result matches Err(e) ==> r == Err::<String, ListingError>(e),
            result matches Ok(rec) ==> (r matches Ok(t) && {
                &&& final(self).records() == old(self).records().push(rec)
                &&& t@ == unit_text(old(self).encoding(), old(self).records().len() == 0, rec)
                &&& final(self).written() == old(self).written() + t@
                &&& final(self).state() == StreamState::Open
            }),
            result is Err ==> {
                &&& final(self).records() == old(self).records()
                &&& final(self).written() == old(self).written()
                &&& final(self).state() == StreamState::Failed
            },
    {
        let rec = match result {
            Ok(rec) => rec,
            Err(e) => {
                self.state = StreamState::Failed;
                return Err(e);
            },
        };
        let text = serialize_entry_info(&rec, self.encoding);
        let mut out = if self.has_records {
            match self.encoding {
                OutputEncoding::Json => String::from_str(","),
                OutputEncoding::Jsonl => String::new(),
                OutputEncoding::Nuon => String::from_str(", "),
            }
        } else {
            String::new()
        };
        out.append(text.as_str());
        match self.encoding {
            OutputEncoding::Jsonl => out.append("\n"),
            _ => {},
        }
        let ghost old_records = self.records@;
        self.records = Ghost(self.records@.push(rec));
        self.written = Ghost(self.written@ + out@);
        self.has_records = true;
        proof {
            let enc = self.encoding;
            let new_records = old_records.push(rec);
            assert(new_records.drop_last() == old_records);
            assert(new_records.last() == rec);
            assert(out@ == unit_text(enc, old_records.len() == 0, rec));
            assert(body(enc, new_records) == body(enc, old_records) + out@);
            assert(opening(enc) + body(enc, new_records) == opening(enc) + body(enc, old_records)
                + out@);
        }
        Ok(out)
    }

    /// Once closed, the whole text written is the document of the records.
    pub proof fn lemma_closed_document(&self)
        requires
            self.wf(),
            self.state() == StreamState::Closed,
        ensures
            self.written() == document(self.encoding(), self.records()),
    {
    }

    /// Ends the listing, after all records or after a failure; the text
    /// returned is the document's closing, and the whole text written is the
    /// document of the records written.
    pub fn close(&mut self) -> (r: String)
        requires
            old(self).wf(),
            old(self).state() != StreamState::Closed,
        ensures
            final(self).wf(),
            final(self).encoding() == old(self).encoding(),
            final(self).state() == StreamState::Closed,
            final(self).records() == old(self).records(),
            r@ == closing(old(self).encoding()),
            final(self).written() == old(self).written() + r@,
            final(self).written() == document(old(self).encoding(), old(self).records()),
    {
        let text = match self.encoding {
            OutputEncoding::Jsonl => String::new(),
            _ => String::from_str("]"),
        };
        self.written = Ghost(self.written@ + text@);
        self.state = StreamState::Closed;
        text
    }
}

} // verus!
