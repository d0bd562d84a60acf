use vstd::prelude::*;

use crate::types::HostError;

verus! {

/// A guest-produced outcome: success, or a guest-reported failure. Each
/// variant carries the serialized payload value as bytes; the engine carries
/// the payload without ever interpreting its shape.
#[derive(Clone, Debug, PartialEq, Eq)]
pub enum Outcome {
    Success(Vec<u8>),
    Failure(Vec<u8>),
}

/// The tag and payload a tagged outcome consists of: `true` for success.
pub open spec fn outcome_rep(o: Outcome) -> (bool, Seq<u8>) {
    match o {
        Outcome::Success(p) => (true, p@),
        Outcome::Failure(p) => (false, p@),
    }
}

/// The eleven bytes of `{"success":`.
pub open spec fn success_prefix() -> Seq<u8> {
    seq![123u8, 34u8, 115u8, 117u8, 99u8, 99u8, 101u8, 115u8, 115u8, 34u8, 58u8]
}

/// The eleven bytes of `{"failure":`.
pub open spec fn failure_prefix() -> Seq<u8> {
    seq![123u8, 34u8, 102u8, 97u8, 105u8, 108u8, 117u8, 114u8, 101u8, 34u8, 58u8]
}

/// The wire form of a tag/payload pair: the explicit discriminator, the
/// payload bytes, and the closing brace. No length prefix: length travels
/// out of band, through the marshaling protocol.
pub open spec fn encoded_rep(tag: bool, payload: Seq<u8>) -> Seq<u8> {
    (if tag {
        success_prefix()
    } else {
        failure_prefix()
    }) + payload + seq![125u8]
}

/// The wire form of an outcome.
pub open spec fn encoded(o: Outcome) -> Seq<u8> {
    encoded_rep(outcome_rep(o).0, outcome_rep(o).1)
}

/// What a byte sequence decodes to, if anything: the branch is read off the
/// embedded discriminator alone, never guessed from the payload's shape.
pub open spec fn decoded(b: Seq<u8>) -> Option<(bool, Seq<u8>)> {
    if b.len() >= 12 && b[b.len() - 1] == 125u8 {
        if b.subrange(0, 11) == success_prefix() {
            Some((true, b.subrange(11, b.len() - 1)))
        } else if b.subrange(0, 11) == failure_prefix() {
            Some((false, b.subrange(11, b.len() - 1)))
        } else {
            None
        }
    } else {
        None
    }
}

/// The discriminator bytes that open the wire form of an outcome with the
/// given tag.
fn tag_prefix(tag: bool) -> (r: Vec<u8>)
    ensures
        r@ == (if tag {
            success_prefix()
        } else {
            failure_prefix()
        }),
{
    let mut r: Vec<u8> = Vec::new();
    r.push(123);
    r.push(34);
    if tag {
        r.push(115);
        r.push(117);
        r.push(99);
        r.push(99);
        r.push(101);
        r.push(115);
        r.push(115);
    } else {
        r.push(102);
        r.push(97);
        r.push(105);
        r.push(108);
        r.push(117);
        r.push(114);
        r.push(101);
    }
    r.push(34);
    r.push(58);
    proof {
        if tag {
            assert(r@ =~= success_prefix());
        } else {
            assert(r@ =~= failure_prefix());
        }
    }
    r
}

/// Encodes an outcome into its wire form.
pub fn encode_outcome(o: &Outcome) -> (r: Vec<u8>)
    ensures
        r@ == encoded(*o),
{
    let (tag, payload): (bool, &Vec<u8>) = match o {
        Outcome::Success(p) => (true, p),
        Outcome::Failure(p) => (false, p),
    };
    let mut r = tag_prefix(tag);
    let mut i: usize = 0;
    while i < payload.len()
        invariant
            i <= payload.len(),
            r@ == (if tag {
                success_prefix()
            } else {
                failure_prefix()
            }) + payload@.subrange(0, i as int),
        decreases payload.len() - i,
    {
        r.push(payload[i]);
        i = i + 1;
        proof {
            assert(payload@.subrange(0, i as int) =~= payload@.subrange(0, i - 1) + seq![
                payload@[i - 1],
            ]);
        }
    }
    r.push(125);
    proof {
        assert(payload@.subrange(0, payload@.len() as int) =~= payload@);
        assert(r@ =~= encoded(*o));
    }
    r
}

/// Tests whether the first eleven bytes of `b` are the discriminator for the
/// given tag.
fn prefix_matches(b: &Vec<u8>, tag: bool) -> (r: bool)
    requires
        b@.len() >= 11,
    ensures
        r <==> b@.subrange(0, 11) == (if tag {
            success_prefix()
        } else {
            failure_prefix()
        }),
{
    let p = tag_prefix(tag);
    let mut i: usize = 0;
    while i < 11
        invariant
            i <= 11,
            b@.len() >= 11,
            p@ == (if tag {
                success_prefix()
            } else {
                failure_prefix()
            }),
            forall|j: int| 0 <= j < i ==> b@[j] == p@[j],
        decreases 11 - i,
    {
        if b[i] != p[i] {
            proof {
                assert(b@.subrange(0, 11)[i as int] == b@[i as int]);
            }
            return false;
        }
        i = i + 1;
    }
    proof {
        assert(b@.subrange(0, 11) =~= p@);
    }
    true
}

/// Decodes outcome bytes, distinguishing the success and failure branches by
/// the embedded discriminator. Malformed bytes are a fatal decode error at
/// the host tier, never a guest-level failure.
pub fn decode_outcome(b: &Vec<u8>) -> (r: Result<Outcome, HostError>)
    ensures
        (match r {
            Ok(o) => decoded(b@) == Some(outcome_rep(o)),
            Err(e) => e == HostError::Decode && decoded(b@) is None,
        }),
{
    if b.len() < 12 {
        return Err(HostError::Decode);
    }
    if b[b.len() - 1] != 125 {
        return Err(HostError::Decode);
    }
    let tag: bool;
    if prefix_matches(b, true) {
        tag = true;
    } else if prefix_matches(b, false) {
        tag = false;
    } else {
        return Err(HostError::Decode);
    }
    let end: usize = b.len() - 1;
    let mut payload: Vec<u8> = Vec::new();
    let mut i: usize = 11;
    while i < end
        invariant
            11 <= i <= end,
            end == b@.len() - 1,
            b@.len() >= 12,
            payload@ == b@.subrange(11, i as int),
        decreases end - i,
    {
        payload.push(b[i]);
        i = i + 1;
        proof {
            assert(b@.subrange(11, i as int) =~= b@.subrange(11, i - 1) + seq![b@[i - 1]]);
        }
    }
    if tag {
        Ok(Outcome::Success(payload))
    } else {
        Ok(Outcome::Failure(payload))
    }
}

/// Law: encoding an outcome and decoding the bytes yields the original tag
/// and payload back, for both variants.
pub proof fn lemma_outcome_round_trip(o: Outcome)
    ensures
        decoded(encoded(o)) == Some(outcome_rep(o)),
{
    let tag = outcome_rep(o).0;
    let p = outcome_rep(o).1;
    let b = encoded(o);
    let prefix = if tag {
        success_prefix()
    } else {
        failure_prefix()
    };
    assert(b.len() == 12 + p.len());
    assert(b[b.len() - 1] == 125u8);
    assert(b.subrange(0, 11) =~= prefix);
    assert(b.subrange(11, b.len() - 1) =~= p);
    if !tag {
        assert(b.subrange(0, 11) != success_prefix()) by {
            assert(b.subrange(0, 11)[2] == 102u8);
            assert(success_prefix()[2] == 115u8);
        }
    }
}

} // verus!
