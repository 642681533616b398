use vstd::prelude::*;

verus! {

/// An opaque routable identifier within the messaging substrate: a byte
/// string naming one hop.
pub struct Address {
    pub bytes: Vec<u8>,
}

impl View for Address {
    type V = Seq<u8>;

    open spec fn view(&self) -> Seq<u8> {
        self.bytes@
    }
}

impl Clone for Address {
    fn clone(&self) -> (r: Self)
        ensures
            r@ == self@,
    {
        let mut copy: Vec<u8> = Vec::new();
        let mut i: usize = 0;
        while i < self.bytes.len()
            invariant
                i <= self.bytes.len(),
                copy@ == self.bytes@.take(i as int),
            decreases self.bytes.len() - i,
        {
            copy.push(self.bytes[i]);
            proof {
                assert(copy@ =~= self.bytes@.take(i + 1 as int));
            }
            i = i + 1;
        }
        proof {
            assert(copy@ =~= self.bytes@);
        }
        Address { bytes: copy }
    }
}

impl Address {
    /// Build an address from raw bytes.
    pub fn from_bytes(bytes: Vec<u8>) -> (r: Self)
        ensures
            r@ == bytes@,
    {
        Address { bytes }
    }
}

/// The ordered list of remaining hop addresses a message must traverse.
pub struct Route {
    pub hops: Vec<Address>,
}

impl View for Route {
    type V = Seq<Seq<u8>>;

    open spec fn view(&self) -> Seq<Seq<u8>> {
        Seq::new(self.hops@.len(), |i: int| self.hops@[i]@)
    }
}

impl Clone for Route {
    fn clone(&self) -> (r: Self)
        ensures
            r@ == self@,
    {
        let mut copy: Vec<Address> = Vec::new();
        let mut i: usize = 0;
        while i < self.hops.len()
            invariant
                i <= self.hops.len(),
                copy@.len() == i,
                forall|j: int| 0 <= j < i ==> copy@[j]@ == self.hops@[j]@,
            decreases self.hops.len() - i,
        {
            copy.push(self.hops[i].clone());
            i = i + 1;
        }
        let r = Route { hops: copy };
        proof {
            assert(r@ =~= self@);
        }
        r
    }
}

impl Route {
    /// The empty route.
    pub fn new() -> (r: Self)
        ensures
            r@ == Seq::<Seq<u8>>::empty(),
    {
        let r = Route { hops: Vec::new() };
        proof {
            assert(r@ =~= Seq::<Seq<u8>>::empty());
        }
        r
    }

    /// Append an address at the back of the route.
    pub fn append(self, address: Address) -> (r: Self)
        ensures
            r@ == self@.push(address@),
    {
        let mut hops = self.hops;
        hops.push(address);
        let r = Route { hops };
        proof {
            assert(r@ =~= self@.push(address@));
        }
        r
    }

    /// Insert an address as the new first hop.
    pub fn prepend(&mut self, address: Address)
        ensures
            final(self)@ == seq![address@] + old(self)@,
    {
        self.hops.insert(0, address);
        proof {
            assert(self@ =~= seq![address@] + old(self)@);
        }
    }

    /// Remove and return the first hop, if any.
    pub fn step(&mut self) -> (r: Option<Address>)
        ensures
            old(self)@.len() == 0 ==> r is None && final(self)@ == old(self)@,
            old(self)@.len() > 0 ==> (r matches Some(a) && a@ == old(self)@[0]
                && final(self)@ == old(self)@.drop_first()),
    {
        if self.hops.len() == 0 {
            proof {
                assert(self@ =~= old(self)@);
            }
            None
        } else {
            let a = self.hops.remove(0);
            proof {
                assert(self@ =~= old(self)@.drop_first());
            }
            Some(a)
        }
    }

    /// The number of remaining hops.
    pub fn len(&self) -> (r: usize)
        ensures
            r == self@.len(),
    {
        self.hops.len()
    }

    /// A copy of this route with the first hop removed; used when a channel
    /// strips its own hop off a caller's onward route.
    pub fn without_first_hop(&self) -> (r: Route)
        requires
            self@.len() > 0,
        ensures
            r@ == self@.drop_first(),
    {
        let mut hops: Vec<Address> = Vec::new();
        let mut i: usize = 1;
        while i < self.hops.len()
            invariant
                1 <= i <= self.hops.len(),
                self.hops@.len() > 0,
                hops@.len() == i - 1,
                forall|j: int| 0 <= j < i - 1 ==> hops@[j]@ == self.hops@[j + 1]@,
            decreases self.hops.len() - i,
        {
            hops.push(self.hops[i].clone());
            i = i + 1;
        }
        let r = Route { hops };
        proof {
            assert(r@ =~= self@.drop_first());
        }
        r
    }
}

/// The plaintext carried by the channel once a message is decrypted, and the
/// unit that is serialized and encrypted on the way out: a protocol version
/// tag, the remaining onward route, the return route for replies, and the
/// application payload.
pub struct Envelope {
    pub version: u8,
    pub onward: Route,
    pub return_: Route,
    pub payload: Vec<u8>,
}

/// The mathematical value of an [`Envelope`].
pub ghost struct EnvelopeView {
    pub version: u8,
    pub onward: Seq<Seq<u8>>,
    pub return_: Seq<Seq<u8>>,
    pub payload: Seq<u8>,
}

impl View for Envelope {
    type V = EnvelopeView;

    open spec fn view(&self) -> EnvelopeView {
        EnvelopeView {
            version: self.version,
            onward: self.onward@,
            return_: self.return_@,
            payload: self.payload@,
        }
    }
}

} // verus!
