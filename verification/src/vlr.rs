//! Variable length records: the metadata blocks that stand between the
//! header and the points, each a descriptor of 54 bytes and a payload.

use vstd::prelude::*;
use crate::bytes::{
    copy_range, lemma_u16_at, push_range, push_u16, read_u16, u16_at, u16_bytes,
};
use crate::error::LasError;

verus! {

/// The number of bytes of a record's descriptor.
pub const VLR_HEADER_LEN: usize = 54;

/// What a variable length record holds.
pub struct VlrView {
    pub reserved: u16,
    /// The 16 bytes that name the record's owner.
    pub user_id: Seq<u8>,
    /// What the record means to its owner.
    pub record_id: u16,
    /// The 32 bytes of the description.
    pub description: Seq<u8>,
    pub payload: Seq<u8>,
}

impl VlrView {
    /// The user ID has 16 bytes, the description 32, and the payload's
    /// length fits the two bytes that declare it.
    pub open spec fn wf(self) -> bool {
        &&& self.user_id.len() == 16
        &&& self.description.len() == 32
        &&& self.payload.len() <= 0xFFFF
    }

    /// The record's bytes: the descriptor, then the payload.
    pub open spec fn bytes(self) -> Seq<u8> {
        u16_bytes(self.reserved) + self.user_id + u16_bytes(self.record_id) + u16_bytes(
            self.payload.len() as u16,
        ) + self.description + self.payload
    }

    /// Whether the record belongs to the owner `user_id`, whose name is
    /// stored with zero bytes after it, and has the given record ID.
    pub open spec fn is_named(self, user_id: Seq<u8>, record_id: u16) -> bool {
        &&& self.record_id == record_id
        &&& user_id.len() <= 16
        &&& forall|i: int|
            0 <= i < 16 ==> #[trigger] self.user_id[i] == (if i < user_id.len() {
                user_id[i]
            } else {
                0u8
            })
    }
}

/// A variable length record.
#[derive(Debug, PartialEq, Eq)]
pub struct Vlr {
    reserved: u16,
    user_id: Vec<u8>,
    record_id: u16,
    description: Vec<u8>,
    payload: Vec<u8>,
}

impl View for Vlr {
    type V = VlrView;

    closed spec fn view(&self) -> VlrView {
        VlrView {
            reserved: self.reserved,
            user_id: self.user_id@,
            record_id: self.record_id,
            description: self.description@,
            payload: self.payload@,
        }
    }
}

impl Clone for Vlr {
    fn clone(&self) -> (v: Vlr)
        ensures
            v@ == self@,
    {
        proof {
            use_type_invariant(self);
        }
        let user_id = copy_range(self.user_id.as_slice(), 0, 16);
        let description = copy_range(self.description.as_slice(), 0, 32);
        let payload = copy_range(self.payload.as_slice(), 0, self.payload.len());
        assert(user_id@ =~= self.user_id@);
        assert(description@ =~= self.description@);
        assert(payload@ =~= self.payload@);
        Vlr { reserved: self.reserved, user_id, record_id: self.record_id, description, payload }
    }
}

/// What each of the records holds.
pub open spec fn views_of(vlrs: Seq<Vlr>) -> Seq<VlrView> {
    Seq::new(vlrs.len(), |i: int| vlrs[i]@)
}

/// Whether `b` holds at `at` a whole record: its descriptor and as many
/// bytes of payload as the descriptor declares.
pub open spec fn vlr_fits(b: Seq<u8>, at: int) -> bool {
    0 <= at && at + 54 <= b.len() && at + 54 + u16_at(b, at + 20) <= b.len()
}

/// Where the record at `at` ends.
pub open spec fn vlr_end(b: Seq<u8>, at: int) -> int {
    at + 54 + u16_at(b, at + 20)
}

/// The record that `b` holds at `at`.
pub open spec fn vlr_at(b: Seq<u8>, at: int) -> VlrView {
    VlrView {
        reserved: u16_at(b, at),
        user_id: b.subrange(at + 2, at + 18),
        record_id: u16_at(b, at + 18),
        description: b.subrange(at + 22, at + 54),
        payload: b.subrange(at + 54, vlr_end(b, at)),
    }
}

/// The `count` records that follow one another from `at` on, or `None`
/// where one of them does not fit into `b`.
pub open spec fn vlr_chain(b: Seq<u8>, count: nat, at: int) -> Option<Seq<VlrView>>
    decreases count,
{
    if count == 0 {
        Some(Seq::empty())
    } else if !vlr_fits(b, at) {
        None
    } else {
        match vlr_chain(b, (count - 1) as nat, vlr_end(b, at)) {
            Some(rest) => Some(seq![vlr_at(b, at)] + rest),
            None => None,
        }
    }
}

/// Where the chain of `count` records from `at` on ends, if all of them fit.
pub open spec fn vlr_chain_end(b: Seq<u8>, count: nat, at: int) -> int
    decreases count,
{
    if count == 0 || !vlr_fits(b, at) {
        at
    } else {
        vlr_chain_end(b, (count - 1) as nat, vlr_end(b, at))
    }
}

/// The bytes of the records, one after the other.
pub open spec fn vlr_chain_bytes(vlrs: Seq<VlrView>) -> Seq<u8>
    decreases vlrs.len(),
{
    if vlrs.len() == 0 {
        Seq::empty()
    } else {
        vlr_chain_bytes(vlrs.drop_last()) + vlrs.last().bytes()
    }
}

/// The places, below `n`, of the records with the given owner and record
/// ID, in the order of the chain.
pub open spec fn places_named(vlrs: Seq<VlrView>, user_id: Seq<u8>, record_id: u16, n: int) -> Seq<
    usize,
>
    decreases n,
{
    if n <= 0 {
        Seq::empty()
    } else if vlrs[n - 1].is_named(user_id, record_id) {
        places_named(vlrs, user_id, record_id, n - 1).push((n - 1) as usize)
    } else {
        places_named(vlrs, user_id, record_id, n - 1)
    }
}

impl Vlr {
    #[verifier::type_invariant]
    spec fn inv(self) -> bool {
        self@.wf()
    }

    /// A record with the given contents, or `None` where the user ID has
    /// not 16 bytes, the description not 32, or the payload more than 65535.
    pub fn new(
        reserved: u16,
        user_id: &[u8],
        record_id: u16,
        description: &[u8],
        payload: Vec<u8>,
    ) -> (r: Option<Vlr>)
        ensures
            r is Some <==> user_id@.len() == 16 && description@.len() == 32 && payload@.len()
                <= 0xFFFF,
            r matches Some(v) ==> v@ == (VlrView {
                reserved,
                user_id: user_id@,
                record_id,
                description: description@,
                payload: payload@,
            }),
    {
        if user_id.len() != 16 || description.len() != 32 || payload.len() > 0xFFFF {
            return None;
        }
        let user = copy_range(user_id, 0, 16);
        let text = copy_range(description, 0, 32);
        assert(user@ =~= user_id@);
        assert(text@ =~= description@);
        Some(Vlr { reserved, user_id: user, record_id, description: text, payload })
    }

    /// The reserved field.
    pub fn reserved(&self) -> (v: u16)
        ensures
            v == self@.reserved,
    {
        self.reserved
    }

    /// The 16 bytes that name the record's owner.
    pub fn user_id(&self) -> (v: &Vec<u8>)
        ensures
            v@ == self@.user_id,
            v@.len() == 16,
    {
        proof {
            use_type_invariant(self);
        }
        &self.user_id
    }

    /// What the record means to its owner.
    pub fn record_id(&self) -> (v: u16)
        ensures
            v == self@.record_id,
    {
        self.record_id
    }

    /// The 32 bytes of the description.
    pub fn description(&self) -> (v: &Vec<u8>)
        ensures
            v@ == self@.description,
            v@.len() == 32,
    {
        proof {
            use_type_invariant(self);
        }
        &self.description
    }

    /// The payload.
    pub fn payload(&self) -> (v: &Vec<u8>)
        ensures
            v@ == self@.payload,
            v@.len() <= 0xFFFF,
    {
        proof {
            use_type_invariant(self);
        }
        &self.payload
    }

    /// Whether the record belongs to the owner `user_id` and has the given
    /// record ID.
    pub fn is_named(&self, user_id: &[u8], record_id: u16) -> (b: bool)
        ensures
            b == self@.is_named(user_id@, record_id),
    {
        proof {
            use_type_invariant(self);
        }
        if self.record_id != record_id || user_id.len() > 16 {
            return false;
        }
        let mut i: usize = 0;
        while i < 16
            invariant
                i <= 16,
                user_id.len() <= 16,
                self.user_id@.len() == 16,
                forall|j: int|
                    0 <= j < i ==> #[trigger] self.user_id@[j] == (if j < user_id@.len() {
                        user_id@[j]
                    } else {
                        0u8
                    }),
            decreases 16 - i,
        {
            let expected = if i < user_id.len() {
                user_id[i]
            } else {
                0
            };
            if self.user_id[i] != expected {
                assert(self@.user_id[i as int] != expected);
                return false;
            }
            i += 1;
        }
        true
    }

    /// Appends the record's bytes: the descriptor, then the payload.
    pub fn write(&self, out: &mut Vec<u8>)
        ensures
            final(out)@ == old(out)@ + self@.bytes(),
            self@.wf(),
    {
        proof {
            use_type_invariant(self);
        }
        push_u16(out, self.reserved);
        push_range(out, self.user_id.as_slice(), 0, 16);
        push_u16(out, self.record_id);
        push_u16(out, self.payload.len() as u16);
        push_range(out, self.description.as_slice(), 0, 32);
        push_range(out, self.payload.as_slice(), 0, self.payload.len());
        assert(self.user_id@.subrange(0, 16) =~= self.user_id@);
        assert(self.description@.subrange(0, 32) =~= self.description@);
        assert(self.payload@.subrange(0, self.payload@.len() as int) =~= self.payload@);
        assert(out@ =~= old(out)@ + self@.bytes());
    }

    /// The number of bytes that the record takes in a file.
    pub fn byte_len(&self) -> (n: usize)
        ensures
            n == self@.bytes().len(),
            n == 54 + self@.payload.len(),
            self@.wf(),
    {
        proof {
            use_type_invariant(self);
        }
        VLR_HEADER_LEN + self.payload.len()
    }

    /// Reads the record at `at`, where a whole record stands there.
    fn read(b: &[u8], at: usize) -> (v: Vlr)
        requires
            vlr_fits(b@, at as int),
            at + 54 <= b.len(),
        ensures
            v@ == vlr_at(b@, at as int),
    {
        let len = read_u16(b, at + 20) as usize;
        Vlr {
            reserved: read_u16(b, at),
            user_id: copy_range(b, at + 2, 16),
            record_id: read_u16(b, at + 18),
            description: copy_range(b, at + 22, 32),
            payload: copy_range(b, at + 54, len),
        }
    }

    /// Reads the `count` records that follow one another in `bytes` from
    /// `starting_offset` on. Fails with `TruncatedVlr` where fewer bytes are
    /// left than a record's descriptor has or declares.
    pub fn parse_all(bytes: &[u8], count: u32, starting_offset: usize) -> (r: Result<
        Vec<Vlr>,
        LasError,
    >)
        ensures
            match vlr_chain(bytes@, count as nat, starting_offset as int) {
                Some(chain) => r matches Ok(vlrs) && views_of(vlrs@) == chain,
                None => r == Err::<Vec<Vlr>, LasError>(LasError::TruncatedVlr),
            },
    {
        let mut vlrs: Vec<Vlr> = Vec::new();
        let mut at: usize = starting_offset;
        let mut i: u32 = 0;
        let ghost whole = vlr_chain(bytes@, count as nat, starting_offset as int);
        assert(views_of(vlrs@) =~= Seq::empty());
        while i < count
            invariant
                i <= count,
                vlrs@.len() == i,
                whole == vlr_chain(bytes@, count as nat, starting_offset as int),
                whole == match vlr_chain(bytes@, (count - i) as nat, at as int) {
                    Some(rest) => Some(views_of(vlrs@) + rest),
                    None => None::<Seq<VlrView>>,
                },
            decreases count - i,
        {
            if at > bytes.len() || bytes.len() - at < VLR_HEADER_LEN {
                return Err(LasError::TruncatedVlr);
            }
            let len = read_u16(bytes, at + 20) as usize;
            if bytes.len() - at - VLR_HEADER_LEN < len {
                return Err(LasError::TruncatedVlr);
            }
            let ghost before = views_of(vlrs@);
            let ghost rest = vlr_chain(bytes@, (count - i - 1) as nat, vlr_end(bytes@, at as int));
            let v = Vlr::read(bytes, at);
            vlrs.push(v);
            proof {
                assert(views_of(vlrs@) =~= before + seq![vlr_at(bytes@, at as int)]);
                if rest is Some {
                    assert(before + (seq![vlr_at(bytes@, at as int)] + rest.unwrap())
                        =~= views_of(vlrs@) + rest.unwrap());
                }
            }
            at = at + VLR_HEADER_LEN + len;
            i += 1;
        }
        assert(views_of(vlrs@) + Seq::<VlrView>::empty() =~= views_of(vlrs@));
        Ok(vlrs)
    }

    /// Appends the bytes of the records, one after the other.
    pub fn write_all(vlrs: &Vec<Vlr>, out: &mut Vec<u8>)
        ensures
            final(out)@ == old(out)@ + vlr_chain_bytes(views_of(vlrs@)),
            forall|i: int| 0 <= i < vlrs@.len() ==> (#[trigger] vlrs@[i])@.wf(),
    {
        let mut i: usize = 0;
        assert(views_of(vlrs@).subrange(0, 0) =~= Seq::empty());
        while i < vlrs.len()
            invariant
                i <= vlrs.len(),
                out@ == old(out)@ + vlr_chain_bytes(views_of(vlrs@).subrange(0, i as int)),
                forall|j: int| 0 <= j < i ==> (#[trigger] vlrs@[j])@.wf(),
            decreases vlrs.len() - i,
        {
            vlrs[i].write(out);
            proof {
                let next = views_of(vlrs@).subrange(0, i + 1);
                assert(next.drop_last() =~= views_of(vlrs@).subrange(0, i as int));
                assert(next.last() == vlrs@[i as int]@);
                assert(out@ =~= old(out)@ + vlr_chain_bytes(next));
            }
            i += 1;
        }
        assert(views_of(vlrs@).subrange(0, vlrs@.len() as int) =~= views_of(vlrs@));
    }

    /// The places of the records with the given owner and record ID, in the
    /// order of the chain. Records that share both are all listed.
    pub fn find_all(vlrs: &Vec<Vlr>, user_id: &[u8], record_id: u16) -> (places: Vec<usize>)
        ensures
            places@ == places_named(views_of(vlrs@), user_id@, record_id, vlrs@.len() as int),
    {
        let mut places: Vec<usize> = Vec::new();
        let mut i: usize = 0;
        while i < vlrs.len()
            invariant
                i <= vlrs.len(),
                places@ == places_named(views_of(vlrs@), user_id@, record_id, i as int),
            decreases vlrs.len() - i,
        {
            if vlrs[i].is_named(user_id, record_id) {
                places.push(i);
            }
            i += 1;
        }
        places
    }
}

/// A record is read back from its bytes, wherever these stand in `b`.
pub proof fn lemma_vlr_at(b: Seq<u8>, at: int, v: VlrView)
    requires
        v.wf(),
        0 <= at,
        at + v.bytes().len() <= b.len(),
        b.subrange(at, at + v.bytes().len()) == v.bytes(),
    ensures
        v.bytes().len() == 54 + v.payload.len(),
        vlr_fits(b, at),
        vlr_end(b, at) == at + v.bytes().len(),
        vlr_at(b, at) == v,
{
    let s = v.bytes();
    let n = v.payload.len() as int;
    assert(s.len() == 54 + n);
    assert(b.subrange(at, at + 2) =~= s.subrange(0, 2));
    assert(s.subrange(0, 2) =~= u16_bytes(v.reserved));
    assert(b.subrange(at + 2, at + 18) =~= s.subrange(2, 18));
    assert(s.subrange(2, 18) =~= v.user_id);
    assert(b.subrange(at + 18, at + 20) =~= s.subrange(18, 20));
    assert(s.subrange(18, 20) =~= u16_bytes(v.record_id));
    assert(b.subrange(at + 20, at + 22) =~= s.subrange(20, 22));
    assert(s.subrange(20, 22) =~= u16_bytes(n as u16));
    assert(b.subrange(at + 22, at + 54) =~= s.subrange(22, 54));
    assert(s.subrange(22, 54) =~= v.description);
    assert(b.subrange(at + 54, at + 54 + n) =~= s.subrange(54, 54 + n));
    assert(s.subrange(54, 54 + n) =~= v.payload);
    lemma_u16_at(b, at, v.reserved);
    lemma_u16_at(b, at + 18, v.record_id);
    lemma_u16_at(b, at + 20, n as u16);
}

/// The bytes of a chain are those of its first record, then those of the
/// rest.
pub proof fn lemma_chain_bytes_first(vlrs: Seq<VlrView>)
    requires
        vlrs.len() > 0,
    ensures
        vlr_chain_bytes(vlrs) == vlrs[0].bytes() + vlr_chain_bytes(vlrs.drop_first()),
    decreases vlrs.len(),
{
    let rest = vlrs.drop_first();
    if vlrs.len() == 1 {
        assert(vlrs.drop_last() =~= Seq::<VlrView>::empty());
        assert(rest =~= Seq::<VlrView>::empty());
        assert(vlr_chain_bytes(vlrs.drop_last()) =~= Seq::<u8>::empty());
        assert(vlr_chain_bytes(vlrs) =~= vlrs[0].bytes() + vlr_chain_bytes(rest));
    } else {
        lemma_chain_bytes_first(vlrs.drop_last());
        assert(vlrs.drop_last().drop_first() =~= rest.drop_last());
        assert(vlrs.drop_last()[0] == vlrs[0]);
        assert(rest.last() == vlrs.last());
        assert(vlr_chain_bytes(vlrs) =~= vlrs[0].bytes() + vlr_chain_bytes(rest));
    }
}

/// A chain of records is read back from its bytes, wherever these stand in
/// `b`.
pub proof fn lemma_chain_of_bytes(b: Seq<u8>, at: int, vlrs: Seq<VlrView>)
    requires
        forall|i: int| 0 <= i < vlrs.len() ==> (#[trigger] vlrs[i]).wf(),
        0 <= at,
        at + vlr_chain_bytes(vlrs).len() <= b.len(),
        b.subrange(at, at + vlr_chain_bytes(vlrs).len()) == vlr_chain_bytes(vlrs),
    ensures
        vlr_chain(b, vlrs.len(), at) == Some(vlrs),
    decreases vlrs.len(),
{
    if vlrs.len() == 0 {
        assert(vlrs =~= Seq::<VlrView>::empty());
    } else {
        let first = vlrs[0];
        let rest = vlrs.drop_first();
        let all = vlr_chain_bytes(vlrs);
        lemma_chain_bytes_first(vlrs);
        let n = first.bytes().len() as int;
        assert(b.subrange(at, at + n) =~= all.subrange(0, n));
        assert(all.subrange(0, n) =~= first.bytes());
        lemma_vlr_at(b, at, first);
        assert(b.subrange(at + n, at + all.len()) =~= all.subrange(n, all.len() as int));
        assert(all.subrange(n, all.len() as int) =~= vlr_chain_bytes(rest));
        assert forall|i: int| 0 <= i < rest.len() implies (#[trigger] rest[i]).wf() by {
            assert(rest[i] == vlrs[i + 1]);
        }
        lemma_chain_of_bytes(b, at + n, rest);
        assert(seq![first] + rest =~= vlrs);
    }
}

} // verus!
