use vstd::prelude::*;

use crate::codec::{base64_decode, base64_standard_decoding, utf8_lossy, utf8_lossy_string};
use crate::error::RunnerError;

verus! {

/// The tag byte that marks a successful reply.
pub const RESULT_OK: u8 = 0;

/// The tag byte that marks a failed query.
pub const RESULT_QUERY_ERROR: u8 = 1;

/// The tag byte that marks a failed execution.
pub const RESULT_EXECUTE_ERROR: u8 = 2;

/// A reply of the chain, as it crosses from the chain's side: base64 of one
/// tag byte followed by the content.
///
/// The tag is `RESULT_OK` for a success, whose content is the reply's bytes;
/// `RESULT_QUERY_ERROR` or `RESULT_EXECUTE_ERROR` for a failure, whose
/// content is the error's message. Other tags are undefined.
#[derive(Debug)]
pub struct RawResult(Result<Vec<u8>, RunnerError>);

/// Decoded reply bytes that the chain may send: a defined tag, and for an
/// error a message free of NUL bytes (it travels as a C string).
pub open spec fn is_well_formed_reply(bytes: Seq<u8>) -> bool {
    &&& bytes.len() >= 1
    &&& bytes[0] == RESULT_OK || bytes[0] == RESULT_QUERY_ERROR || bytes[0] == RESULT_EXECUTE_ERROR
    &&& bytes[0] != RESULT_OK ==> !bytes.skip(1).contains(0u8)
}

impl RawResult {
    /// What this reply holds.
    pub closed spec fn outcome(self) -> Result<Vec<u8>, RunnerError> {
        self.0
    }

    /// `self` is what the reply `bytes` (tag and content) stands for.
    pub open spec fn decodes(self, bytes: Seq<u8>) -> bool {
        let content = bytes.skip(1);
        if bytes[0] == RESULT_OK {
            self.outcome() matches Ok(v) && v@ == content
        } else if bytes[0] == RESULT_QUERY_ERROR {
            self.outcome() matches Err(RunnerError::QueryError { msg }) && msg@ == utf8_lossy(content)
        } else {
            self.outcome() matches Err(RunnerError::ExecuteError { msg }) && msg@ == utf8_lossy(
                content,
            )
        }
    }

    /// Reads decoded reply bytes: the tag, then the content.
    pub fn from_reply_bytes(bytes: &[u8]) -> (res: RawResult)
        requires
            is_well_formed_reply(bytes@),
        ensures
            res.decodes(bytes@),
            bytes@[0] == RESULT_OK ==> (res.outcome() matches Ok(v) && v@.len() == bytes@.len() - 1
                && seq![RESULT_OK] + v@ == bytes@),
    {
        let code = bytes[0];
        let mut content: Vec<u8> = Vec::new();
        let mut i: usize = 1;
        while i < bytes.len()
            invariant
                1 <= i <= bytes.len(),
                content@ == bytes@.subrange(1, i as int),
            decreases bytes.len() - i,
        {
            content.push(bytes[i]);
            i = i + 1;
        }
        assert(content@ =~= bytes@.skip(1));
        assert(seq![bytes@[0]] + bytes@.skip(1) =~= bytes@);
        if code == RESULT_OK {
            RawResult(Ok(content))
        } else {
            let msg = utf8_lossy_string(content.as_slice());
            if code == RESULT_QUERY_ERROR {
                RawResult(Err(RunnerError::QueryError { msg }))
            } else {
                RawResult(Err(RunnerError::ExecuteError { msg }))
            }
        }
    }

    /// Reads a reply as the chain hands it over: the bytes of a base64 text.
    /// `None` where the text is not base64 or the decoded reply is not well
    /// formed.
    pub fn from_base64_reply(encoded: &[u8]) -> (res: Option<RawResult>)
        ensures
            res is Some <==> (base64_standard_decoding(encoded@) matches Some(b)
                && is_well_formed_reply(b)),
            res matches Some(r) ==> r.decodes(base64_standard_decoding(encoded@)->0),
    {
        match base64_decode(encoded) {
            Ok(bytes) => {
                if bytes.len() == 0 {
                    return None;
                }
                let code = bytes[0];
                if code != RESULT_OK && code != RESULT_QUERY_ERROR && code != RESULT_EXECUTE_ERROR {
                    return None;
                }
                if code != RESULT_OK {
                    let mut i: usize = 1;
                    while i < bytes.len()
                        invariant
                            1 <= i <= bytes.len(),
                            forall|k: int| 1 <= k < i ==> bytes@[k] != 0u8,
                            base64_standard_decoding(encoded@) == Some(bytes@),
                            bytes@[0] != RESULT_OK,
                        decreases bytes.len() - i,
                    {
                        if bytes[i] == 0u8 {
                            assert(bytes@.skip(1)[i - 1] == 0u8);
                            assert(bytes@.skip(1).contains(0u8));
                            return None;
                        }
                        i = i + 1;
                    }
                    assert(!bytes@.skip(1).contains(0u8)) by {
                        assert forall|k: int| 0 <= k < bytes@.skip(1).len() implies bytes@.skip(
                            1,
                        )[k] != 0u8 by {
                            assert(bytes@.skip(1)[k] == bytes@[k + 1]);
                        }
                    }
                }
                Some(RawResult::from_reply_bytes(bytes.as_slice()))
            },
            Err(_) => None,
        }
    }

    /// A successful reply gives back all of its content: the tag followed by
    /// the bytes read back is the reply, whatever its length. A failed one
    /// reports as its message everything after the tag, read as lossy UTF-8,
    /// as a query error or an execute error by its tag.
    pub proof fn lemma_reply_content_whole(self, bytes: Seq<u8>)
        requires
            bytes.len() >= 1,
            self.decodes(bytes),
        ensures
            bytes[0] == RESULT_OK ==> (self.outcome() matches Ok(v) && v@.len() == bytes.len() - 1
                && seq![bytes[0]] + v@ == bytes),
            bytes[0] == RESULT_QUERY_ERROR ==> (self.outcome() matches Err(
                RunnerError::QueryError { msg },
            ) && exists|c: Seq<u8>| #[trigger] (seq![bytes[0]] + c) == bytes && msg@ == utf8_lossy(c)),
            bytes[0] == RESULT_EXECUTE_ERROR ==> (self.outcome() matches Err(
                RunnerError::ExecuteError { msg },
            ) && exists|c: Seq<u8>| #[trigger] (seq![bytes[0]] + c) == bytes && msg@ == utf8_lossy(c)),
    {
        assert(seq![bytes[0]] + bytes.skip(1) =~= bytes);
    }

    /// Reading back a successful reply built from any content gives that
    /// content.
    pub proof fn lemma_ok_reply_round_trip(self, content: Seq<u8>)
        requires
            self.decodes(seq![RESULT_OK] + content),
        ensures
            self.outcome() matches Ok(v) && v@ == content,
    {
        assert((seq![RESULT_OK] + content).skip(1) =~= content);
    }

    /// The reply's content, or the error it reports.
    pub fn into_result(self) -> (res: Result<Vec<u8>, RunnerError>)
        ensures
            res == self.outcome(),
    {
        self.0
    }
}

} // verus!
