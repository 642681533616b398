use vstd::prelude::*;
use vstd::slice::slice_index_get;

use crate::error::ChannelError;
use crate::routing::{Address, Envelope, EnvelopeView, Route};

verus! {

broadcast use vstd::slice::axiom_spec_len;

/// Two-byte big-endian encoding of a value below 2^16.
pub open spec fn spec_u16_be(n: int) -> Seq<u8> {
    seq![(n / 256) as u8, (n % 256) as u8]
}

/// The value read back from a two-byte big-endian encoding.
pub open spec fn spec_u16_of(b0: u8, b1: u8) -> int {
    (b0 as int) * 256 + (b1 as int)
}

/// Reading back a two-byte big-endian encoding yields the encoded value.
pub proof fn lemma_u16_be_of(n: int)
    requires
        0 <= n <= 0xFFFF,
    ensures
        spec_u16_of(spec_u16_be(n)[0], spec_u16_be(n)[1]) == n,
{
    assert(0 <= n / 256 < 256);
    assert(0 <= n % 256 < 256);
}

/// Encoding the value read from two bytes gives back those bytes.
pub proof fn lemma_u16_of_be(b0: u8, b1: u8)
    ensures
        spec_u16_be(spec_u16_of(b0, b1)) == seq![b0, b1],
{
    let v = spec_u16_of(b0, b1);
    assert(v / 256 == b0 as int && v % 256 == b1 as int) by (nonlinear_arith)
        requires
            v == (b0 as int) * 256 + (b1 as int),
            0 <= b0 < 256,
            0 <= b1 < 256,
    ;
    assert(spec_u16_be(v) =~= seq![b0, b1]);
}

/// One address on the wire: a two-byte big-endian length, then the bytes.
pub open spec fn spec_addr_enc(a: Seq<u8>) -> Seq<u8> {
    spec_u16_be(a.len() as int) + a
}

/// A list of addresses on the wire, one after the other.
pub open spec fn spec_addrs_enc(r: Seq<Seq<u8>>) -> Seq<u8>
    decreases r.len(),
{
    if r.len() == 0 {
        Seq::empty()
    } else {
        spec_addr_enc(r[0]) + spec_addrs_enc(r.drop_first())
    }
}

/// A route on the wire: a two-byte big-endian hop count, then the hops.
pub open spec fn spec_route_enc(r: Seq<Seq<u8>>) -> Seq<u8> {
    spec_u16_be(r.len() as int) + spec_addrs_enc(r)
}

/// The whole envelope on the wire: the version byte, the onward route, the
/// return route, and the payload running to the end of the buffer.
pub open spec fn spec_envelope_enc(e: EnvelopeView) -> Seq<u8> {
    seq![e.version] + spec_route_enc(e.onward) + spec_route_enc(e.return_) + e.payload
}

/// A route fits on the wire when its hop count and every hop length fit in
/// two bytes.
pub open spec fn route_wf(r: Seq<Seq<u8>>) -> bool {
    &&& r.len() <= 0xFFFF
    &&& forall|i: int| 0 <= i < r.len() ==> #[trigger] r[i].len() <= 0xFFFF
}

impl EnvelopeView {
    /// The envelope fits the wire format.
    pub open spec fn wf(self) -> bool {
        route_wf(self.onward) && route_wf(self.return_)
    }
}

/// Decoding of `n` consecutive addresses; returns the addresses and the
/// remaining bytes, or nothing if the bytes do not parse.
pub open spec fn spec_addrs_dec(b: Seq<u8>, n: nat) -> Option<(Seq<Seq<u8>>, Seq<u8>)>
    decreases n,
{
    if n == 0 {
        Some((Seq::empty(), b))
    } else if b.len() < 2 {
        None::<(Seq<Seq<u8>>, Seq<u8>)>
    } else {
        let l = spec_u16_of(b[0], b[1]);
        if b.len() < 2 + l {
            None
        } else {
            let a = b.subrange(2, 2 + l);
            match spec_addrs_dec(b.skip(2 + l), (n - 1) as nat) {
                None => None,
                Some(p) => Some((seq![a] + p.0, p.1)),
            }
        }
    }
}

/// Decoding of one route: the hop count, then that many addresses.
pub open spec fn spec_route_dec(b: Seq<u8>) -> Option<(Seq<Seq<u8>>, Seq<u8>)> {
    if b.len() < 2 {
        None
    } else {
        spec_addrs_dec(b.skip(2), spec_u16_of(b[0], b[1]) as nat)
    }
}

/// Decoding of a whole envelope; every successful decode re-encodes to the
/// same bytes.
pub open spec fn spec_envelope_dec(b: Seq<u8>) -> Option<EnvelopeView> {
    if b.len() < 1 {
        None
    } else {
        match spec_route_dec(b.drop_first()) {
            None => None,
            Some(p) => match spec_route_dec(p.1) {
                None => None,
                Some(q) => Some(
                    EnvelopeView {
                        version: b[0],
                        onward: p.0,
                        return_: q.0,
                        payload: q.1,
                    },
                ),
            },
        }
    }
}

proof fn lemma_addrs_roundtrip(r: Seq<Seq<u8>>, rest: Seq<u8>)
    requires
        forall|i: int| 0 <= i < r.len() ==> #[trigger] r[i].len() <= 0xFFFF,
    ensures
        spec_addrs_dec(spec_addrs_enc(r) + rest, r.len()) == Some((r, rest)),
    decreases r.len(),
{
    if r.len() == 0 {
        assert(spec_addrs_enc(r) + rest =~= rest);
        assert(spec_addrs_dec(rest, 0) == Some((Seq::<Seq<u8>>::empty(), rest)));
        assert(r =~= Seq::<Seq<u8>>::empty());
    } else {
        let a = r[0];
        let la = a.len() as int;
        let tail = spec_addrs_enc(r.drop_first()) + rest;
        let b = spec_addrs_enc(r) + rest;
        assert(b =~= (spec_u16_be(la) + a) + tail);
        lemma_u16_be_of(la);
        assert(b[0] == spec_u16_be(la)[0]);
        assert(b[1] == spec_u16_be(la)[1]);
        assert(spec_u16_of(b[0], b[1]) == la);
        assert(b.len() >= 2 + la);
        assert(b.subrange(2, 2 + la) =~= a);
        assert(b.skip(2 + la) =~= tail);
        lemma_addrs_roundtrip(r.drop_first(), rest);
        assert(spec_addrs_dec(tail, (r.len() - 1) as nat) == Some((r.drop_first(), rest)));
        assert(seq![a] + r.drop_first() =~= r);
    }
}

proof fn lemma_route_roundtrip(r: Seq<Seq<u8>>, rest: Seq<u8>)
    requires
        route_wf(r),
    ensures
        spec_route_dec(spec_route_enc(r) + rest) == Some((r, rest)),
{
    let b = spec_route_enc(r) + rest;
    lemma_u16_be_of(r.len() as int);
    assert(b[0] == spec_u16_be(r.len() as int)[0]);
    assert(b[1] == spec_u16_be(r.len() as int)[1]);
    assert(spec_u16_of(b[0], b[1]) == r.len() as int);
    assert(b.skip(2) =~= spec_addrs_enc(r) + rest);
    lemma_addrs_roundtrip(r, rest);
}

/// A well-formed envelope round-trips exactly through its binary encoding.
pub proof fn lemma_envelope_roundtrip(e: EnvelopeView)
    requires
        e.wf(),
    ensures
        spec_envelope_dec(spec_envelope_enc(e)) == Some(e),
{
    let b = spec_envelope_enc(e);
    let rest1 = spec_route_enc(e.return_) + e.payload;
    assert(b.drop_first() =~= spec_route_enc(e.onward) + rest1);
    lemma_route_roundtrip(e.onward, rest1);
    lemma_route_roundtrip(e.return_, e.payload);
    assert(b[0] == e.version);
    assert(spec_envelope_dec(b) == Some(e));
}

proof fn lemma_addrs_enc_snoc(s: Seq<Seq<u8>>, a: Seq<u8>)
    ensures
        spec_addrs_enc(s.push(a)) == spec_addrs_enc(s) + spec_addr_enc(a),
    decreases s.len(),
{
    if s.len() == 0 {
        let sp = s.push(a);
        assert(sp.drop_first() =~= Seq::<Seq<u8>>::empty());
        assert(sp[0] == a);
        assert(spec_addrs_enc(sp.drop_first()) == Seq::<u8>::empty());
        assert(spec_addrs_enc(sp) == spec_addr_enc(a) + Seq::<u8>::empty());
        assert(spec_addr_enc(a) + Seq::<u8>::empty() =~= spec_addr_enc(a));
        assert(spec_addrs_enc(s) == Seq::<u8>::empty());
        assert(spec_addrs_enc(s) + spec_addr_enc(a) =~= spec_addr_enc(a));
    } else {
        lemma_addrs_enc_snoc(s.drop_first(), a);
        assert(s.push(a).drop_first() =~= s.drop_first().push(a));
        assert(s.push(a)[0] == s[0]);
        assert(spec_addr_enc(s[0]) + (spec_addrs_enc(s.drop_first()) + spec_addr_enc(a)) =~= (
        spec_addr_enc(s[0]) + spec_addrs_enc(s.drop_first())) + spec_addr_enc(a));
    }
}

pub(crate) fn push_u16_be(out: &mut Vec<u8>, n: usize)
    requires
        n <= 0xFFFF,
    ensures
        final(out)@ == old(out)@ + spec_u16_be(n as int),
{
    out.push((n / 256) as u8);
    out.push((n % 256) as u8);
    proof {
        assert(out@ =~= old(out)@ + spec_u16_be(n as int));
    }
}

fn route_fits(r: &Route) -> (ok: bool)
    ensures
        ok == route_wf(r@),
{
    if r.hops.len() > 0xFFFF {
        return false;
    }
    let mut i: usize = 0;
    while i < r.hops.len()
        invariant
            i <= r.hops.len(),
            r.hops.len() <= 0xFFFF,
            forall|j: int| 0 <= j < i ==> #[trigger] r@[j].len() <= 0xFFFF,
        decreases r.hops.len() - i,
    {
        if r.hops[i].bytes.len() > 0xFFFF {
            proof {
                assert(r@[i as int].len() > 0xFFFF);
            }
            return false;
        }
        proof {
            assert(r@[i as int].len() <= 0xFFFF);
        }
        i = i + 1;
    }
    true
}

fn encode_route_into(out: &mut Vec<u8>, r: &Route)
    requires
        route_wf(r@),
    ensures
        final(out)@ == old(out)@ + spec_route_enc(r@),
{
    push_u16_be(out, r.hops.len());
    let mut i: usize = 0;
    while i < r.hops.len()
        invariant
            i <= r.hops.len(),
            route_wf(r@),
            out@ == old(out)@ + spec_u16_be(r@.len() as int) + spec_addrs_enc(r@.take(i as int)),
        decreases r.hops.len() - i,
    {
        let ghost prefix = out@;
        let a = &r.hops[i];
        proof {
            assert(r@[i as int].len() <= 0xFFFF);
            assert(a@ == r@[i as int]);
        }
        push_u16_be(out, a.bytes.len());
        let mut j: usize = 0;
        while j < a.bytes.len()
            invariant
                j <= a.bytes.len(),
                out@ == prefix + spec_u16_be(a@.len() as int) + a@.take(j as int),
            decreases a.bytes.len() - j,
        {
            out.push(a.bytes[j]);
            proof {
                assert(out@ =~= prefix + spec_u16_be(a@.len() as int) + a@.take(j + 1 as int));
            }
            j = j + 1;
        }
        proof {
            assert(a@.take(a@.len() as int) =~= a@);
            lemma_addrs_enc_snoc(r@.take(i as int), r@[i as int]);
            assert(r@.take(i + 1 as int) =~= r@.take(i as int).push(r@[i as int]));
            assert(out@ =~= old(out)@ + spec_u16_be(r@.len() as int) + spec_addrs_enc(
                r@.take(i + 1 as int),
            ));
        }
        i = i + 1;
    }
    proof {
        assert(r@.take(r@.len() as int) =~= r@);
        assert(out@ =~= old(out)@ + spec_route_enc(r@));
    }
}

/// The sequence of address views held by a vector of addresses.
pub open spec fn addrs_view(v: Seq<Address>) -> Seq<Seq<u8>> {
    Seq::new(v.len(), |i: int| v[i]@)
}

impl Envelope {
    /// Serialize the envelope into its wire bytes. Fails with `CodecError`
    /// exactly when a route or an address is too long for the format.
    pub fn encode(&self) -> (r: Result<Vec<u8>, ChannelError>)
        ensures
            self@.wf() ==> (r matches Ok(v) && v@ == spec_envelope_enc(self@)),
            !self@.wf() ==> r == Err::<Vec<u8>, ChannelError>(ChannelError::CodecError),
    {
        if !route_fits(&self.onward) || !route_fits(&self.return_) {
            return Err(ChannelError::CodecError);
        }
        let mut out: Vec<u8> = Vec::new();
        out.push(self.version);
        proof {
            assert(out@ =~= seq![self@.version]);
        }
        encode_route_into(&mut out, &self.onward);
        encode_route_into(&mut out, &self.return_);
        let ghost prefix = out@;
        let mut k: usize = 0;
        while k < self.payload.len()
            invariant
                k <= self.payload.len(),
                out@ == prefix + self.payload@.take(k as int),
            decreases self.payload.len() - k,
        {
            out.push(self.payload[k]);
            proof {
                assert(out@ =~= prefix + self.payload@.take(k + 1 as int));
            }
            k = k + 1;
        }
        proof {
            assert(self.payload@.take(self.payload@.len() as int) =~= self.payload@);
            assert(out@ =~= spec_envelope_enc(self@));
        }
        Ok(out)
    }

    /// Parse an envelope from wire bytes. Succeeds exactly when the bytes
    /// are a well-formed encoding; the result re-encodes to the input.
    pub fn decode(bytes: &[u8]) -> (r: Result<Envelope, ChannelError>)
        ensures
            r matches Ok(e) ==> spec_envelope_dec(bytes@) == Some(e@),
            r is Err ==> spec_envelope_dec(bytes@) is None && r == Err::<Envelope, ChannelError>(
                ChannelError::CodecError,
            ),
    {
        if bytes.len() < 1 {
            return Err(ChannelError::CodecError);
        }
        let version = *slice_index_get(bytes, 0);
        let onward: Route;
        let pos1: usize;
        match decode_route(bytes, 1) {
            Ok(p) => {
                onward = p.0;
                pos1 = p.1;
            },
            Err(e) => {
                proof {
                    assert(bytes@.skip(1) == bytes@.drop_first());
                }
                return Err(ChannelError::CodecError);
            },
        }
        let return_: Route;
        let pos2: usize;
        match decode_route(bytes, pos1) {
            Ok(p) => {
                return_ = p.0;
                pos2 = p.1;
            },
            Err(e) => {
                proof {
                    assert(bytes@.skip(1) == bytes@.drop_first());
                }
                return Err(ChannelError::CodecError);
            },
        }
        let payload = copy_tail(bytes, pos2);
        let e = Envelope { version, onward, return_, payload };
        proof {
            assert(bytes@.skip(1) == bytes@.drop_first());
            assert(spec_envelope_dec(bytes@) == Some(e@));
        }
        Ok(e)
    }
}

/// Append a byte slice at the back of a vector.
pub(crate) fn append_bytes(dst: &mut Vec<u8>, src: &[u8])
    ensures
        final(dst)@ == old(dst)@ + src@,
{
    let mut j: usize = 0;
    proof {
        assert(dst@ =~= old(dst)@ + src@.take(0));
    }
    while j < src.len()
        invariant
            j <= src@.len(),
            dst@ == old(dst)@ + src@.take(j as int),
        decreases src@.len() - j,
    {
        dst.push(*slice_index_get(src, j));
        proof {
            assert(dst@ =~= old(dst)@ + src@.take(j + 1 as int));
        }
        j = j + 1;
    }
    proof {
        assert(src@.take(src@.len() as int) =~= src@);
    }
}

fn copy_tail(bytes: &[u8], pos: usize) -> (r: Vec<u8>)
    requires
        pos <= bytes@.len(),
    ensures
        r@ == bytes@.skip(pos as int),
{
    let mut out: Vec<u8> = Vec::new();
    let mut k: usize = pos;
    proof {
        assert(Seq::<u8>::empty() =~= bytes@.subrange(pos as int, pos as int));
    }
    while k < bytes.len()
        invariant
            pos <= k <= bytes@.len(),
            out@ == bytes@.subrange(pos as int, k as int),
        decreases bytes@.len() - k,
    {
        out.push(*slice_index_get(bytes, k));
        proof {
            assert(out@ =~= bytes@.subrange(pos as int, k + 1 as int));
        }
        k = k + 1;
    }
    proof {
        assert(out@ =~= bytes@.skip(pos as int));
    }
    out
}

/// Frame an envelope for a stream transport: its encoded length in two-byte
/// big-endian form, then the encoded bytes. Fails with `CodecError` when the
/// envelope does not fit the wire format or its encoding does not fit the
/// two-byte length prefix.
pub fn prepare_message(msg: &Envelope) -> (r: Result<Vec<u8>, ChannelError>)
    ensures
        ({
            let enc = spec_envelope_enc(msg@);
            &&& msg@.wf() && enc.len() <= 0xFFFF ==> (r matches Ok(v) && v@ == spec_u16_be(
                enc.len() as int,
            ) + enc)
            &&& !(msg@.wf() && enc.len() <= 0xFFFF) ==> r == Err::<Vec<u8>, ChannelError>(
                ChannelError::CodecError,
            )
        }),
{
    let bytes = match msg.encode() {
        Ok(b) => b,
        Err(e) => {
            return Err(e);
        },
    };
    if bytes.len() > 0xFFFF {
        return Err(ChannelError::CodecError);
    }
    let mut out: Vec<u8> = Vec::new();
    push_u16_be(&mut out, bytes.len());
    append_bytes(&mut out, bytes.as_slice());
    Ok(out)
}

fn decode_route(bytes: &[u8], pos: usize) -> (r: Result<(Route, usize), ChannelError>)
    requires
        pos <= bytes@.len(),
    ensures
        r matches Ok(p) ==> pos <= p.1 <= bytes@.len() && spec_route_dec(bytes@.skip(pos as int))
            == Some((p.0@, bytes@.skip(p.1 as int))),
        r is Err ==> spec_route_dec(bytes@.skip(pos as int)) is None && r == Err::<
            (Route, usize),
            ChannelError,
        >(ChannelError::CodecError),
{
    if bytes.len() - pos < 2 {
        return Err(ChannelError::CodecError);
    }
    let b0 = *slice_index_get(bytes, pos);
    let b1 = *slice_index_get(bytes, pos + 1);
    let n: usize = (b0 as usize) * 256 + (b1 as usize);
    proof {
        assert(bytes@.skip(pos as int)[0] == b0);
        assert(bytes@.skip(pos as int)[1] == b1);
        assert(n == spec_u16_of(b0, b1));
    }
    let mut hops: Vec<Address> = Vec::new();
    let mut cur: usize = pos + 2;
    let mut i: usize = 0;
    proof {
        assert(bytes@.skip(pos as int).skip(2) =~= bytes@.skip(pos + 2 as int));
        assert(addrs_view(hops@) =~= Seq::<Seq<u8>>::empty());
        let part0 = spec_addrs_dec(bytes@.skip(pos + 2 as int), n as nat);
        match part0 {
            None => {},
            Some(p) => {
                assert(addrs_view(hops@) + p.0 =~= p.0);
            },
        }
    }
    while i < n
        invariant
            pos + 2 <= cur <= bytes@.len(),
            i <= n,
            n <= 0xFFFF,
            bytes@.skip(pos as int).len() >= 2,
            n == spec_u16_of(bytes@.skip(pos as int)[0], bytes@.skip(pos as int)[1]),
            hops@.len() == i,
            ({
                let full = spec_addrs_dec(bytes@.skip(pos + 2 as int), n as nat);
                let part = spec_addrs_dec(bytes@.skip(cur as int), (n - i) as nat);
                match part {
                    None => full is None,
                    Some(p) => full == Some((addrs_view(hops@) + p.0, p.1)),
                }
            }),
        decreases n - i,
    {
        let ghost tail = bytes@.skip(cur as int);
        if bytes.len() - cur < 2 {
            proof {
                assert(spec_addrs_dec(tail, (n - i) as nat) is None);
                assert(spec_addrs_dec(bytes@.skip(pos + 2 as int), n as nat) is None);
                assert(bytes@.skip(pos as int).skip(2) =~= bytes@.skip(pos + 2 as int));
                assert(spec_route_dec(bytes@.skip(pos as int)) is None);
            }
            return Err(ChannelError::CodecError);
        }
        let c0 = *slice_index_get(bytes, cur);
        let c1 = *slice_index_get(bytes, cur + 1);
        let l: usize = (c0 as usize) * 256 + (c1 as usize);
        proof {
            assert(tail[0] == c0);
            assert(tail[1] == c1);
            assert(l == spec_u16_of(c0, c1));
        }
        if bytes.len() - cur - 2 < l {
            proof {
                assert(tail.len() < 2 + l);
                assert(spec_addrs_dec(tail, (n - i) as nat) is None);
                assert(spec_addrs_dec(bytes@.skip(pos + 2 as int), n as nat) is None);
                assert(bytes@.skip(pos as int).skip(2) =~= bytes@.skip(pos + 2 as int));
                assert(spec_route_dec(bytes@.skip(pos as int)) is None);
            }
            return Err(ChannelError::CodecError);
        }
        let mut ab: Vec<u8> = Vec::new();
        let end: usize = cur + 2 + l;
        let mut j: usize = cur + 2;
        proof {
            assert(Seq::<u8>::empty() =~= bytes@.subrange(cur + 2 as int, cur + 2 as int));
        }
        while j < end
            invariant
                cur + 2 <= j <= end,
                end == cur + 2 + l,
                end <= bytes@.len(),
                ab@ == bytes@.subrange(cur + 2 as int, j as int),
            decreases end - j,
        {
            ab.push(*slice_index_get(bytes, j));
            proof {
                assert(ab@ =~= bytes@.subrange(cur + 2 as int, j + 1 as int));
            }
            j = j + 1;
        }
        proof {
            let full = spec_addrs_dec(bytes@.skip(pos + 2 as int), n as nat);
            let part_old = spec_addrs_dec(tail, (n - i) as nat);
            let newtail = bytes@.skip(cur + 2 + l as int);
            let part_new = spec_addrs_dec(newtail, (n - i - 1) as nat);
            assert(tail.subrange(2, 2 + l as int) =~= ab@);
            assert(tail.skip(2 + l as int) =~= newtail);
            match part_new {
                None => {
                    assert(part_old is None);
                    assert(full is None);
                },
                Some(p) => {
                    assert(part_old == Some((seq![ab@] + p.0, p.1)));
                    assert(full == Some((addrs_view(hops@) + (seq![ab@] + p.0), p.1)));
                    assert(addrs_view(hops@.push(Address { bytes: ab })) + p.0 =~= addrs_view(
                        hops@,
                    ) + (seq![ab@] + p.0));
                },
            }
        }
        hops.push(Address { bytes: ab });
        cur = cur + 2 + l;
        i = i + 1;
    }
    let r = Route { hops };
    proof {
        assert(spec_addrs_dec(bytes@.skip(cur as int), 0) == Some(
            (Seq::<Seq<u8>>::empty(), bytes@.skip(cur as int)),
        ));
        assert(addrs_view(hops@) + Seq::<Seq<u8>>::empty() =~= addrs_view(hops@));
        assert(r@ =~= addrs_view(hops@));
        assert(spec_route_dec(bytes@.skip(pos as int)) == Some((r@, bytes@.skip(cur as int))));
    }
    Ok((r, cur))
}

} // verus!
