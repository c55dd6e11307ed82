//! Owning locks and type identifiers, modelled as plain values.
//!
//! A script is the ledger's authorization or asset predicate reference: a
//! 32-byte code hash, a hash-type discriminator, and argument bytes. The swap
//! contract stores the maker's whole lock inside the order lock's argument
//! bytes; this module fixes the byte layout the library uses for that
//! embedding (code hash, then hash type, then arguments) and proves that it
//! round-trips. The ledger's own envelope encoding is a collaborator's
//! concern: the shell converts at the boundary.

use vstd::prelude::*;

use crate::SwapError;
use crate::bytes::append_bytes;
use crate::bytes::copy_bytes_range;

verus! {

/// A lock or type script as the library sees it.
#[derive(Clone, Debug)]
pub struct Script {
    pub code_hash: Vec<u8>,
    pub hash_type: u8,
    pub args: Vec<u8>,
}

/// The mathematical value of a [`Script`].
#[verifier::ext_equal]
pub ghost struct ScriptModel {
    pub code_hash: Seq<u8>,
    pub hash_type: u8,
    pub args: Seq<u8>,
}

impl ScriptModel {
    /// A script is well formed when its code hash has the ledger's fixed width.
    pub open spec fn wf(self) -> bool {
        self.code_hash.len() == 32
    }
}

impl View for Script {
    type V = ScriptModel;

    open spec fn view(&self) -> ScriptModel {
        ScriptModel {
            code_hash: self.code_hash@,
            hash_type: self.hash_type,
            args: self.args@,
        }
    }
}

/// The library's byte embedding of a script: code hash, hash type, arguments.
pub open spec fn spec_serialize_script(m: ScriptModel) -> Seq<u8> {
    m.code_hash + seq![m.hash_type] + m.args
}

/// The inverse reading: at least 33 bytes split into a script, fewer cannot.
pub open spec fn spec_parse_script(s: Seq<u8>) -> Option<ScriptModel> {
    if s.len() >= 33 {
        Some(ScriptModel {
            code_hash: s.subrange(0, 32),
            hash_type: s[32],
            args: s.subrange(33, s.len() as int),
        })
    } else {
        None
    }
}

/// Serializes a script into the library's embedding.
pub fn serialize_script(s: &Script) -> (r: Vec<u8>)
    requires
        s@.wf(),
    ensures
        r@ == spec_serialize_script(s@),
        r@.len() == 33 + s@.args.len(),
{
    let mut out: Vec<u8> = Vec::new();
    append_bytes(&mut out, &s.code_hash);
    out.push(s.hash_type);
    append_bytes(&mut out, &s.args);
    proof {
        assert(((Seq::<u8>::empty() + s@.code_hash).push(s@.hash_type)) + s@.args
            =~= s@.code_hash + seq![s@.hash_type] + s@.args);
    }
    out
}

/// Recovers a script from its embedding; fewer than 33 bytes is malformed.
pub fn parse_script(b: &Vec<u8>) -> (r: Result<Script, SwapError>)
    ensures
        b@.len() >= 33 ==> (r matches Ok(s) && Some(s@) == spec_parse_script(b@) && s@.wf()),
        b@.len() < 33 ==> r == Err::<Script, _>(SwapError::MalformedPayload),
{
    if b.len() < 33 {
        return Err(SwapError::MalformedPayload);
    }
    let code_hash = copy_bytes_range(b, 0, 32);
    let hash_type = b[32];
    let args = copy_bytes_range(b, 33, b.len());
    Ok(Script { code_hash, hash_type, args })
}

/// Round-trip law: parsing a serialized well-formed script yields it back.
pub proof fn lemma_script_round_trip(m: ScriptModel)
    requires
        m.wf(),
    ensures
        spec_parse_script(spec_serialize_script(m)) == Some(m),
{
    let s = spec_serialize_script(m);
    assert(s.len() == 33 + m.args.len());
    assert(s.subrange(0, 32) =~= m.code_hash);
    assert(s[32] == m.hash_type);
    assert(s.subrange(33, s.len() as int) =~= m.args);
    assert(spec_parse_script(s).unwrap() =~= m);
}

} // verus!
