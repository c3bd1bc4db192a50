//! The point-in-time snapshot codec: a full collection of raw accounts,
//! grouped by discriminator, serialized to a length-prefixed binary
//! container and gzip-compressed as a second, independent stage. The
//! round trip is exact: decoding an encoding yields the collection
//! bit-for-bit, and a corrupt archive fails loudly, never silently
//! returning a partial collection.

use crate::wire::{
    enc_bool, enc_key, enc_u64, group_enc_lens, lemma_peel_bool, lemma_peel_key, lemma_peel_u64,
    lemma_split_suffix, parse_bool, parse_key, parse_u64, put_bool, put_key, put_u64, take_bool,
    take_key, take_u64, AccountKey, DecodeError,
};
use vstd::prelude::*;

verus! {

broadcast use group_enc_lens;

// ---------------------------------------------------------------------------
// The collection
// ---------------------------------------------------------------------------

/// One raw account as observed from the ledger: opaque data plus its
/// native metadata, never interpreted by the codec.
#[derive(Clone, Debug, PartialEq)]
pub struct RawAccount {
    pub owner: AccountKey,
    pub balance: u64,
    pub data: Vec<u8>,
    pub executable: bool,
    pub epoch: u64,
}

#[verifier::ext_equal]
pub struct RawAccountV {
    pub owner: AccountKey,
    pub balance: u64,
    pub data: Seq<u8>,
    pub executable: bool,
    pub epoch: u64,
}

impl View for RawAccount {
    type V = RawAccountV;

    open spec fn view(&self) -> RawAccountV {
        RawAccountV {
            owner: self.owner,
            balance: self.balance,
            data: self.data@,
            executable: self.executable,
            epoch: self.epoch,
        }
    }
}

impl RawAccountV {
    pub open spec fn wf(self) -> bool {
        self.data.len() <= u64::MAX
    }
}

#[derive(Clone, Debug, PartialEq)]
pub struct SnapshotAccount {
    pub identifier: AccountKey,
    pub account: RawAccount,
}

#[verifier::ext_equal]
pub struct SnapshotAccountV {
    pub identifier: AccountKey,
    pub account: RawAccountV,
}

impl View for SnapshotAccount {
    type V = SnapshotAccountV;

    open spec fn view(&self) -> SnapshotAccountV {
        SnapshotAccountV { identifier: self.identifier, account: self.account@ }
    }
}

impl SnapshotAccountV {
    pub open spec fn wf(self) -> bool {
        self.account.wf()
    }
}

/// All accounts of one discriminator, in fetch order.
#[derive(Clone, Debug, PartialEq)]
pub struct SnapshotGroup {
    pub discriminator: u64,
    pub accounts: Vec<SnapshotAccount>,
}

#[verifier::ext_equal]
pub struct SnapshotGroupV {
    pub discriminator: u64,
    pub accounts: Seq<SnapshotAccountV>,
}

pub open spec fn account_views(s: Seq<SnapshotAccount>) -> Seq<SnapshotAccountV> {
    s.map_values(|a: SnapshotAccount| a@)
}

impl View for SnapshotGroup {
    type V = SnapshotGroupV;

    open spec fn view(&self) -> SnapshotGroupV {
        SnapshotGroupV { discriminator: self.discriminator, accounts: account_views(self.accounts@) }
    }
}

impl SnapshotGroupV {
    pub open spec fn wf(self) -> bool {
        &&& self.accounts.len() <= u64::MAX
        &&& forall|i: int| 0 <= i < self.accounts.len() ==> (#[trigger] self.accounts[i]).wf()
    }
}

/// The full collection: an ordered map from discriminator to the
/// accounts observed under it.
#[derive(Clone, Debug, PartialEq)]
pub struct Snapshot {
    pub groups: Vec<SnapshotGroup>,
}

#[verifier::ext_equal]
pub struct SnapshotV {
    pub groups: Seq<SnapshotGroupV>,
}

pub open spec fn group_views(s: Seq<SnapshotGroup>) -> Seq<SnapshotGroupV> {
    s.map_values(|g: SnapshotGroup| g@)
}

impl View for Snapshot {
    type V = SnapshotV;

    open spec fn view(&self) -> SnapshotV {
        SnapshotV { groups: group_views(self.groups@) }
    }
}

impl SnapshotV {
    pub open spec fn wf(self) -> bool {
        &&& self.groups.len() <= u64::MAX
        &&& forall|i: int| 0 <= i < self.groups.len() ==> (#[trigger] self.groups[i]).wf()
    }
}

/// A failure of a snapshot operation: fatal to that operation and
/// surfaced to the caller.
#[derive(Clone, Copy, Debug, PartialEq, Eq, Structural)]
pub enum ArchiveError {
    /// The archive's compressed envelope would not decompress.
    Decompress,
    /// The decompressed bytes are not a structurally valid container.
    Malformed(DecodeError),
}

// ---------------------------------------------------------------------------
// The binary container, at the specification level
// ---------------------------------------------------------------------------

pub open spec fn parse_bytes(d: Seq<u8>, pos: int, n: int) -> Result<(Seq<u8>, int), DecodeError> {
    if 0 <= pos && 0 <= n && pos + n <= d.len() {
        Ok((d.subrange(pos, pos + n), pos + n))
    } else {
        Err(DecodeError::TruncatedInput)
    }
}

pub open spec fn enc_raw_account(a: RawAccountV) -> Seq<u8>
    recommends
        a.wf(),
{
    enc_key(a.owner) + enc_u64(a.balance) + enc_bool(a.executable) + enc_u64(a.epoch) + enc_u64(
        a.data.len() as u64,
    ) + a.data
}

pub open spec fn parse_raw_account(d: Seq<u8>, pos: int) -> Result<(RawAccountV, int), DecodeError> {
    match parse_key(d, pos) {
        Err(e) => Err(e),
        Ok((owner, pos)) => match parse_u64(d, pos) {
            Err(e) => Err(e),
            Ok((balance, pos)) => match parse_bool(d, pos) {
                Err(e) => Err(e),
                Ok((executable, pos)) => match parse_u64(d, pos) {
                    Err(e) => Err(e),
                    Ok((epoch, pos)) => match parse_u64(d, pos) {
                        Err(e) => Err(e),
                        Ok((dlen, pos)) => match parse_bytes(d, pos, dlen as int) {
                            Err(e) => Err(e),
                            Ok((data, pos)) => Ok(
                                (RawAccountV { owner, balance, data, executable, epoch }, pos),
                            ),
                        },
                    },
                },
            },
        },
    }
}

pub proof fn lemma_peel_raw_account(d: Seq<u8>, pos: int, a: RawAccountV, rest: Seq<u8>)
    requires
        0 <= pos <= d.len(),
        a.wf(),
        d.subrange(pos, d.len() as int) == enc_raw_account(a) + rest,
    ensures
        enc_raw_account(a).len() == 57 + a.data.len(),
        pos + enc_raw_account(a).len() <= d.len(),
        parse_raw_account(d, pos) == Ok::<(RawAccountV, int), DecodeError>(
            (a, pos + enc_raw_account(a).len()),
        ),
        d.subrange(pos + enc_raw_account(a).len() as int, d.len() as int) == rest,
{
    let r4 = a.data + rest;
    let r3 = enc_u64(a.data.len() as u64) + r4;
    let r2 = enc_u64(a.epoch) + r3;
    let r1 = enc_bool(a.executable) + r2;
    let r0 = enc_u64(a.balance) + r1;
    assert(enc_raw_account(a) + rest =~= enc_key(a.owner) + r0);
    lemma_peel_key(d, pos, a.owner, r0);
    lemma_peel_u64(d, pos + 32, a.balance, r1);
    lemma_peel_bool(d, pos + 40, a.executable, r2);
    lemma_peel_u64(d, pos + 41, a.epoch, r3);
    lemma_peel_u64(d, pos + 49, a.data.len() as u64, r4);
    lemma_split_suffix(d, pos + 57, a.data, rest);
    assert((a.data.len() as u64) as int == a.data.len());
}

pub open spec fn enc_snapshot_account(a: SnapshotAccountV) -> Seq<u8>
    recommends
        a.wf(),
{
    enc_key(a.identifier) + enc_raw_account(a.account)
}

pub open spec fn parse_snapshot_account(d: Seq<u8>, pos: int) -> Result<
    (SnapshotAccountV, int),
    DecodeError,
> {
    match parse_key(d, pos) {
        Err(e) => Err(e),
        Ok((identifier, pos)) => match parse_raw_account(d, pos) {
            Err(e) => Err(e),
            Ok((account, pos)) => Ok((SnapshotAccountV { identifier, account }, pos)),
        },
    }
}

pub proof fn lemma_peel_snapshot_account(d: Seq<u8>, pos: int, a: SnapshotAccountV, rest: Seq<u8>)
    requires
        0 <= pos <= d.len(),
        a.wf(),
        d.subrange(pos, d.len() as int) == enc_snapshot_account(a) + rest,
    ensures
        enc_snapshot_account(a).len() == 89 + a.account.data.len(),
        pos + enc_snapshot_account(a).len() <= d.len(),
        parse_snapshot_account(d, pos) == Ok::<(SnapshotAccountV, int), DecodeError>(
            (a, pos + enc_snapshot_account(a).len()),
        ),
        d.subrange(pos + enc_snapshot_account(a).len() as int, d.len() as int) == rest,
{
    let r0 = enc_raw_account(a.account) + rest;
    assert(enc_snapshot_account(a) + rest =~= enc_key(a.identifier) + r0);
    lemma_peel_key(d, pos, a.identifier, r0);
    lemma_peel_raw_account(d, pos + 32, a.account, rest);
}

pub open spec fn enc_account_list(s: Seq<SnapshotAccountV>) -> Seq<u8>
    decreases s.len(),
{
    if s.len() == 0 {
        Seq::empty()
    } else {
        enc_snapshot_account(s.first()) + enc_account_list(s.drop_first())
    }
}

pub open spec fn parse_account_list(d: Seq<u8>, pos: int, n: nat) -> Result<
    (Seq<SnapshotAccountV>, int),
    DecodeError,
>
    decreases n,
{
    if n == 0 {
        Ok((Seq::empty(), pos))
    } else {
        match parse_snapshot_account(d, pos) {
            Err(e) => Err(e),
            Ok((first, pos)) => match parse_account_list(d, pos, (n - 1) as nat) {
                Err(e) => Err(e),
                Ok((tail, pos)) => Ok((seq![first] + tail, pos)),
            },
        }
    }
}

pub open spec fn wf_account_seq(s: Seq<SnapshotAccountV>) -> bool {
    forall|i: int| 0 <= i < s.len() ==> (#[trigger] s[i]).wf()
}

pub proof fn lemma_peel_account_list(d: Seq<u8>, pos: int, s: Seq<SnapshotAccountV>, rest: Seq<u8>)
    requires
        0 <= pos <= d.len(),
        wf_account_seq(s),
        d.subrange(pos, d.len() as int) == enc_account_list(s) + rest,
    ensures
        pos + enc_account_list(s).len() <= d.len(),
        parse_account_list(d, pos, s.len()) == Ok::<(Seq<SnapshotAccountV>, int), DecodeError>(
            (s, pos + enc_account_list(s).len()),
        ),
        d.subrange(pos + enc_account_list(s).len() as int, d.len() as int) == rest,
    decreases s.len(),
{
    if s.len() == 0 {
        assert(enc_account_list(s) + rest =~= rest);
        assert(s =~= Seq::<SnapshotAccountV>::empty());
    } else {
        let r0 = enc_account_list(s.drop_first()) + rest;
        assert(enc_account_list(s) + rest =~= enc_snapshot_account(s.first()) + r0);
        lemma_peel_snapshot_account(d, pos, s.first(), r0);
        assert(wf_account_seq(s.drop_first()));
        lemma_peel_account_list(
            d,
            pos + enc_snapshot_account(s.first()).len() as int,
            s.drop_first(),
            rest,
        );
        assert(seq![s.first()] + s.drop_first() =~= s);
    }
}

pub open spec fn enc_group(g: SnapshotGroupV) -> Seq<u8>
    recommends
        g.wf(),
{
    enc_u64(g.discriminator) + enc_u64(g.accounts.len() as u64) + enc_account_list(g.accounts)
}

pub open spec fn parse_group(d: Seq<u8>, pos: int) -> Result<(SnapshotGroupV, int), DecodeError> {
    match parse_u64(d, pos) {
        Err(e) => Err(e),
        Ok((discriminator, pos)) => match parse_u64(d, pos) {
            Err(e) => Err(e),
            Ok((count, pos)) => match parse_account_list(d, pos, count as nat) {
                Err(e) => Err(e),
                Ok((accounts, pos)) => Ok((SnapshotGroupV { discriminator, accounts }, pos)),
            },
        },
    }
}

pub proof fn lemma_peel_group(d: Seq<u8>, pos: int, g: SnapshotGroupV, rest: Seq<u8>)
    requires
        0 <= pos <= d.len(),
        g.wf(),
        d.subrange(pos, d.len() as int) == enc_group(g) + rest,
    ensures
        pos + enc_group(g).len() <= d.len(),
        parse_group(d, pos) == Ok::<(SnapshotGroupV, int), DecodeError>(
            (g, pos + enc_group(g).len()),
        ),
        d.subrange(pos + enc_group(g).len() as int, d.len() as int) == rest,
{
    let r1 = enc_account_list(g.accounts) + rest;
    let r0 = enc_u64(g.accounts.len() as u64) + r1;
    assert(enc_group(g) + rest =~= enc_u64(g.discriminator) + r0);
    lemma_peel_u64(d, pos, g.discriminator, r0);
    lemma_peel_u64(d, pos + 8, g.accounts.len() as u64, r1);
    lemma_peel_account_list(d, pos + 16, g.accounts, rest);
    assert((g.accounts.len() as u64) as nat == g.accounts.len());
}

pub open spec fn enc_group_list(s: Seq<SnapshotGroupV>) -> Seq<u8>
    decreases s.len(),
{
    if s.len() == 0 {
        Seq::empty()
    } else {
        enc_group(s.first()) + enc_group_list(s.drop_first())
    }
}

pub open spec fn parse_group_list(d: Seq<u8>, pos: int, n: nat) -> Result<
    (Seq<SnapshotGroupV>, int),
    DecodeError,
>
    decreases n,
{
    if n == 0 {
        Ok((Seq::empty(), pos))
    } else {
        match parse_group(d, pos) {
            Err(e) => Err(e),
            Ok((first, pos)) => match parse_group_list(d, pos, (n - 1) as nat) {
                Err(e) => Err(e),
                Ok((tail, pos)) => Ok((seq![first] + tail, pos)),
            },
        }
    }
}

pub open spec fn wf_group_seq(s: Seq<SnapshotGroupV>) -> bool {
    forall|i: int| 0 <= i < s.len() ==> (#[trigger] s[i]).wf()
}

pub proof fn lemma_peel_group_list(d: Seq<u8>, pos: int, s: Seq<SnapshotGroupV>, rest: Seq<u8>)
    requires
        0 <= pos <= d.len(),
        wf_group_seq(s),
        d.subrange(pos, d.len() as int) == enc_group_list(s) + rest,
    ensures
        pos + enc_group_list(s).len() <= d.len(),
        parse_group_list(d, pos, s.len()) == Ok::<(Seq<SnapshotGroupV>, int), DecodeError>(
            (s, pos + enc_group_list(s).len()),
        ),
        d.subrange(pos + enc_group_list(s).len() as int, d.len() as int) == rest,
    decreases s.len(),
{
    if s.len() == 0 {
        assert(enc_group_list(s) + rest =~= rest);
        assert(s =~= Seq::<SnapshotGroupV>::empty());
    } else {
        let r0 = enc_group_list(s.drop_first()) + rest;
        assert(enc_group_list(s) + rest =~= enc_group(s.first()) + r0);
        lemma_peel_group(d, pos, s.first(), r0);
        assert(wf_group_seq(s.drop_first()));
        lemma_peel_group_list(d, pos + enc_group(s.first()).len() as int, s.drop_first(), rest);
        assert(seq![s.first()] + s.drop_first() =~= s);
    }
}

/// The whole container: a group count, then each group in order.
pub open spec fn enc_snapshot(v: SnapshotV) -> Seq<u8>
    recommends
        v.wf(),
{
    enc_u64(v.groups.len() as u64) + enc_group_list(v.groups)
}

pub open spec fn parse_snapshot(d: Seq<u8>, pos: int) -> Result<(SnapshotV, int), DecodeError> {
    match parse_u64(d, pos) {
        Err(e) => Err(e),
        Ok((count, pos)) => match parse_group_list(d, pos, count as nat) {
            Err(e) => Err(e),
            Ok((groups, pos)) => Ok((SnapshotV { groups }, pos)),
        },
    }
}

/// Decoding the container demands every byte be consumed: a remainder is
/// a structural fault, never ignored.
pub open spec fn spec_decode_snapshot(d: Seq<u8>) -> Result<SnapshotV, ArchiveError> {
    match parse_snapshot(d, 0) {
        Ok((v, end)) => if end == d.len() {
            Ok(v)
        } else {
            Err(ArchiveError::Malformed(DecodeError::TrailingBytes))
        },
        Err(e) => Err(ArchiveError::Malformed(e)),
    }
}

/// Decoding an encoded snapshot yields the collection back exactly, for
/// every well-formed collection: empty, single-entry, and zero-length
/// account data included.
pub proof fn lemma_snapshot_round_trip(v: SnapshotV)
    requires
        v.wf(),
    ensures
        spec_decode_snapshot(enc_snapshot(v)) == Ok::<SnapshotV, ArchiveError>(v),
{
    let d = enc_snapshot(v);
    let r0 = enc_group_list(v.groups) + Seq::<u8>::empty();
    assert(d.subrange(0, d.len() as int) =~= enc_u64(v.groups.len() as u64) + r0);
    lemma_peel_u64(d, 0, v.groups.len() as u64, r0);
    lemma_peel_group_list(d, 8, v.groups, Seq::empty());
    assert((v.groups.len() as u64) as nat == v.groups.len());
}

// ---------------------------------------------------------------------------
// Executable container codec
// ---------------------------------------------------------------------------

fn take_bytes(d: &[u8], pos: usize, n: u64) -> (r: Result<(Vec<u8>, usize), DecodeError>)
    ensures
        match r {
            Ok((v, p)) => parse_bytes(d@, pos as int, n as int) == Ok::<(Seq<u8>, int), DecodeError>(
                (v@, p as int),
            ),
            Err(e) => parse_bytes(d@, pos as int, n as int) == Err::<(Seq<u8>, int), DecodeError>(e),
        },
{
    if pos <= d.len() && ((d.len() - pos) as u64) >= n {
        let count = n as usize;
        let mut v: Vec<u8> = Vec::new();
        let mut i: usize = 0;
        while i < count
            invariant
                pos + count <= d@.len(),
                d@.len() <= usize::MAX,
                i <= count,
                v@ == d@.subrange(pos as int, pos + i),
            decreases count - i,
        {
            v.push(d[pos + i]);
            i = i + 1;
            proof {
                assert(v@ =~= d@.subrange(pos as int, pos as int + i));
            }
        }
        Ok((v, pos + count))
    } else {
        Err(DecodeError::TruncatedInput)
    }
}

fn put_bytes(out: &mut Vec<u8>, b: &Vec<u8>)
    ensures
        final(out)@ == old(out)@ + b@,
{
    let mut i: usize = 0;
    while i < b.len()
        invariant
            i <= b@.len(),
            out@ == old(out)@ + b@.subrange(0, i as int),
        decreases b@.len() - i,
    {
        out.push(b[i]);
        i = i + 1;
        proof {
            assert(out@ =~= old(out)@ + b@.subrange(0, i as int));
        }
    }
    proof {
        assert(b@.subrange(0, b@.len() as int) =~= b@);
    }
}

fn take_raw_account(d: &[u8], pos: usize) -> (r: Result<(RawAccount, usize), DecodeError>)
    ensures
        match r {
            Ok((a, p)) => parse_raw_account(d@, pos as int) == Ok::<
                (RawAccountV, int),
                DecodeError,
            >((a@, p as int)),
            Err(e) => parse_raw_account(d@, pos as int) == Err::<(RawAccountV, int), DecodeError>(
                e,
            ),
        },
{
    let (owner, pos) = match take_key(d, pos) {
        Ok(v) => v,
        Err(e) => {
            return Err(e);
        },
    };
    let (balance, pos) = match take_u64(d, pos) {
        Ok(v) => v,
        Err(e) => {
            return Err(e);
        },
    };
    let (executable, pos) = match take_bool(d, pos) {
        Ok(v) => v,
        Err(e) => {
            return Err(e);
        },
    };
    let (epoch, pos) = match take_u64(d, pos) {
        Ok(v) => v,
        Err(e) => {
            return Err(e);
        },
    };
    let (dlen, pos) = match take_u64(d, pos) {
        Ok(v) => v,
        Err(e) => {
            return Err(e);
        },
    };
    let (data, pos) = match take_bytes(d, pos, dlen) {
        Ok(v) => v,
        Err(e) => {
            return Err(e);
        },
    };
    Ok((RawAccount { owner, balance, data, executable, epoch }, pos))
}

fn take_snapshot_account(d: &[u8], pos: usize) -> (r: Result<(SnapshotAccount, usize), DecodeError>)
    ensures
        match r {
            Ok((a, p)) => parse_snapshot_account(d@, pos as int) == Ok::<
                (SnapshotAccountV, int),
                DecodeError,
            >((a@, p as int)),
            Err(e) => parse_snapshot_account(d@, pos as int) == Err::<
                (SnapshotAccountV, int),
                DecodeError,
            >(e),
        },
{
    let (identifier, pos) = match take_key(d, pos) {
        Ok(v) => v,
        Err(e) => {
            return Err(e);
        },
    };
    let (account, pos) = match take_raw_account(d, pos) {
        Ok(v) => v,
        Err(e) => {
            return Err(e);
        },
    };
    Ok((SnapshotAccount { identifier, account }, pos))
}

/// The loop invariant of the account-list reader.
pub open spec fn account_list_continues(
    d: Seq<u8>,
    pos0: int,
    count: nat,
    done: Seq<SnapshotAccountV>,
    pos: int,
) -> bool
    recommends
        done.len() <= count,
{
    match parse_account_list(d, pos, (count - done.len()) as nat) {
        Ok((tail, end)) => parse_account_list(d, pos0, count) == Ok::<
            (Seq<SnapshotAccountV>, int),
            DecodeError,
        >((done + tail, end)),
        Err(e) => parse_account_list(d, pos0, count) == Err::<
            (Seq<SnapshotAccountV>, int),
            DecodeError,
        >(e),
    }
}

#[verifier::loop_isolation(false)]
fn take_group(d: &[u8], pos: usize) -> (r: Result<(SnapshotGroup, usize), DecodeError>)
    ensures
        match r {
            Ok((g, p)) => parse_group(d@, pos as int) == Ok::<(SnapshotGroupV, int), DecodeError>(
                (g@, p as int),
            ),
            Err(e) => parse_group(d@, pos as int) == Err::<(SnapshotGroupV, int), DecodeError>(e),
        },
{
    let (discriminator, pos) = match take_u64(d, pos) {
        Ok(v) => v,
        Err(e) => {
            return Err(e);
        },
    };
    let (count, p0) = match take_u64(d, pos) {
        Ok(v) => v,
        Err(e) => {
            return Err(e);
        },
    };
    let ghost pos0 = p0 as int;
    let mut accounts: Vec<SnapshotAccount> = Vec::new();
    let mut pos = p0;
    let mut i: u64 = 0;
    proof {
        match parse_account_list(d@, pos0, count as nat) {
            Ok((tail, end)) => {
                assert(account_views(accounts@) + tail =~= tail);
            },
            Err(_) => {},
        }
    }
    while i < count
        invariant
            i <= count,
            accounts@.len() == i,
            account_list_continues(d@, pos0, count as nat, account_views(accounts@), pos as int),
        decreases count - i,
    {
        let ghost done_before = account_views(accounts@);
        let (acc, next) = match take_snapshot_account(d, pos) {
            Ok(v) => v,
            Err(e) => {
                return Err(e);
            },
        };
        accounts.push(acc);
        proof {
            assert(account_views(accounts@) =~= done_before.push(acc@));
            match parse_account_list(d@, next as int, (count - i - 1) as nat) {
                Ok((t2, e2)) => {
                    assert(done_before + (seq![acc@] + t2) =~= account_views(accounts@) + t2);
                },
                Err(_) => {},
            }
        }
        pos = next;
        i = i + 1;
    }
    proof {
        assert(account_views(accounts@) + Seq::<SnapshotAccountV>::empty() =~= account_views(
            accounts@,
        ));
    }
    Ok((SnapshotGroup { discriminator, accounts }, pos))
}

/// The loop invariant of the group-list reader.
pub open spec fn group_list_continues(
    d: Seq<u8>,
    pos0: int,
    count: nat,
    done: Seq<SnapshotGroupV>,
    pos: int,
) -> bool
    recommends
        done.len() <= count,
{
    match parse_group_list(d, pos, (count - done.len()) as nat) {
        Ok((tail, end)) => parse_group_list(d, pos0, count) == Ok::<
            (Seq<SnapshotGroupV>, int),
            DecodeError,
        >((done + tail, end)),
        Err(e) => parse_group_list(d, pos0, count) == Err::<(Seq<SnapshotGroupV>, int), DecodeError>(
            e,
        ),
    }
}

/// Decodes the binary container. Fails loudly on any structural fault:
/// a short buffer, an invalid flag byte, or bytes left over at the end.
#[verifier::loop_isolation(false)]
pub fn decode_snapshot(d: &[u8]) -> (r: Result<Snapshot, ArchiveError>)
    ensures
        match r {
            Ok(s) => spec_decode_snapshot(d@) == Ok::<SnapshotV, ArchiveError>(s@),
            Err(e) => spec_decode_snapshot(d@) == Err::<SnapshotV, ArchiveError>(e),
        },
{
    let (count, p0) = match take_u64(d, 0) {
        Ok(v) => v,
        Err(e) => {
            return Err(ArchiveError::Malformed(e));
        },
    };
    let ghost pos0 = p0 as int;
    let mut groups: Vec<SnapshotGroup> = Vec::new();
    let mut pos = p0;
    let mut i: u64 = 0;
    proof {
        match parse_group_list(d@, pos0, count as nat) {
            Ok((tail, end)) => {
                assert(group_views(groups@) + tail =~= tail);
            },
            Err(_) => {},
        }
    }
    while i < count
        invariant
            i <= count,
            groups@.len() == i,
            group_list_continues(d@, pos0, count as nat, group_views(groups@), pos as int),
        decreases count - i,
    {
        let ghost done_before = group_views(groups@);
        let (g, next) = match take_group(d, pos) {
            Ok(v) => v,
            Err(e) => {
                return Err(ArchiveError::Malformed(e));
            },
        };
        groups.push(g);
        proof {
            assert(group_views(groups@) =~= done_before.push(g@));
            match parse_group_list(d@, next as int, (count - i - 1) as nat) {
                Ok((t2, e2)) => {
                    assert(done_before + (seq![g@] + t2) =~= group_views(groups@) + t2);
                },
                Err(_) => {},
            }
        }
        pos = next;
        i = i + 1;
    }
    proof {
        assert(group_views(groups@) + Seq::<SnapshotGroupV>::empty() =~= group_views(groups@));
    }
    if pos != d.len() {
        return Err(ArchiveError::Malformed(DecodeError::TrailingBytes));
    }
    Ok(Snapshot { groups })
}

// ---------------------------------------------------------------------------
// Executable container encoder
// ---------------------------------------------------------------------------

fn put_raw_account(out: &mut Vec<u8>, a: &RawAccount)
    ensures
        final(out)@ == old(out)@ + enc_raw_account(a@),
{
    put_key(out, a.owner);
    put_u64(out, a.balance);
    put_bool(out, a.executable);
    put_u64(out, a.epoch);
    put_u64(out, a.data.len() as u64);
    put_bytes(out, &a.data);
    proof {
        assert(final(out)@ =~= old(out)@ + enc_raw_account(a@));
    }
}

fn put_snapshot_account(out: &mut Vec<u8>, a: &SnapshotAccount)
    ensures
        final(out)@ == old(out)@ + enc_snapshot_account(a@),
{
    put_key(out, a.identifier);
    put_raw_account(out, &a.account);
    proof {
        assert(final(out)@ =~= old(out)@ + enc_snapshot_account(a@));
    }
}

pub proof fn lemma_enc_account_list_append(a: Seq<SnapshotAccountV>, b: Seq<SnapshotAccountV>)
    ensures
        enc_account_list(a + b) == enc_account_list(a) + enc_account_list(b),
    decreases a.len(),
{
    if a.len() == 0 {
        assert(a + b =~= b);
        assert(enc_account_list(a) + enc_account_list(b) =~= enc_account_list(b));
    } else {
        assert((a + b).drop_first() =~= a.drop_first() + b);
        lemma_enc_account_list_append(a.drop_first(), b);
        assert(enc_snapshot_account(a.first()) + (enc_account_list(a.drop_first())
            + enc_account_list(b)) =~= (enc_snapshot_account(a.first()) + enc_account_list(
            a.drop_first(),
        )) + enc_account_list(b));
    }
}

fn put_account_list(out: &mut Vec<u8>, accounts: &Vec<SnapshotAccount>)
    ensures
        final(out)@ == old(out)@ + enc_account_list(account_views(accounts@)),
{
    let mut i: usize = 0;
    while i < accounts.len()
        invariant
            i <= accounts@.len(),
            out@ == old(out)@ + enc_account_list(account_views(accounts@).subrange(0, i as int)),
        decreases accounts@.len() - i,
    {
        let ghost prefix = account_views(accounts@).subrange(0, i as int);
        put_snapshot_account(out, &accounts[i]);
        i = i + 1;
        proof {
            let ghost x = account_views(accounts@)[i - 1];
            lemma_enc_account_list_append(prefix, seq![x]);
            assert(seq![x].drop_first() =~= Seq::<SnapshotAccountV>::empty());
            assert(enc_account_list(Seq::<SnapshotAccountV>::empty()) =~= Seq::<u8>::empty());
            assert(enc_account_list(seq![x]) =~= enc_snapshot_account(x));
            assert(prefix + seq![x] =~= account_views(accounts@).subrange(0, i as int));
            assert(out@ =~= old(out)@ + enc_account_list(
                account_views(accounts@).subrange(0, i as int),
            ));
        }
    }
    proof {
        assert(account_views(accounts@).subrange(0, accounts@.len() as int) =~= account_views(
            accounts@,
        ));
    }
}

fn put_group(out: &mut Vec<u8>, g: &SnapshotGroup)
    ensures
        final(out)@ == old(out)@ + enc_group(g@),
{
    put_u64(out, g.discriminator);
    put_u64(out, g.accounts.len() as u64);
    put_account_list(out, &g.accounts);
    proof {
        assert(final(out)@ =~= old(out)@ + enc_group(g@));
    }
}

pub proof fn lemma_enc_group_list_append(a: Seq<SnapshotGroupV>, b: Seq<SnapshotGroupV>)
    ensures
        enc_group_list(a + b) == enc_group_list(a) + enc_group_list(b),
    decreases a.len(),
{
    if a.len() == 0 {
        assert(a + b =~= b);
        assert(enc_group_list(a) + enc_group_list(b) =~= enc_group_list(b));
    } else {
        assert((a + b).drop_first() =~= a.drop_first() + b);
        lemma_enc_group_list_append(a.drop_first(), b);
        assert(enc_group(a.first()) + (enc_group_list(a.drop_first()) + enc_group_list(b)) =~= (
        enc_group(a.first()) + enc_group_list(a.drop_first())) + enc_group_list(b));
    }
}

/// Encodes the full collection to the binary container, before
/// compression.
pub fn encode_snapshot(s: &Snapshot) -> (r: Vec<u8>)
    ensures
        r@ == enc_snapshot(s@),
{
    let mut out: Vec<u8> = Vec::new();
    put_u64(&mut out, s.groups.len() as u64);
    let mut i: usize = 0;
    while i < s.groups.len()
        invariant
            i <= s.groups@.len(),
            out@ == enc_u64(s.groups@.len() as u64) + enc_group_list(
                group_views(s.groups@).subrange(0, i as int),
            ),
        decreases s.groups@.len() - i,
    {
        let ghost prefix = group_views(s.groups@).subrange(0, i as int);
        put_group(&mut out, &s.groups[i]);
        i = i + 1;
        proof {
            let ghost x = group_views(s.groups@)[i - 1];
            lemma_enc_group_list_append(prefix, seq![x]);
            assert(seq![x].drop_first() =~= Seq::<SnapshotGroupV>::empty());
            assert(enc_group_list(Seq::<SnapshotGroupV>::empty()) =~= Seq::<u8>::empty());
            assert(enc_group_list(seq![x]) =~= enc_group(x));
            assert(prefix + seq![x] =~= group_views(s.groups@).subrange(0, i as int));
            assert(out@ =~= enc_u64(s.groups@.len() as u64) + enc_group_list(
                group_views(s.groups@).subrange(0, i as int),
            ));
        }
    }
    proof {
        assert(group_views(s.groups@).subrange(0, s.groups@.len() as int) =~= group_views(
            s.groups@,
        ));
    }
    out
}

// ---------------------------------------------------------------------------
// The compressed archive: encode-then-compress, decompress-then-decode
// ---------------------------------------------------------------------------

/// What gzip decompression yields on the given bytes, or nothing when
/// they are not a valid compressed stream. Decompression is a function
/// of the bytes alone.
pub uninterp spec fn ungzip_of(c: Seq<u8>) -> Option<Seq<u8>>;

/// Relies on flate2's gzip encoder (`flate2::write::GzEncoder`):
/// decompressing its output yields exactly the bytes written to it.
/// Writing into a `Vec` sink cannot fail.
#[verifier::external_body]
fn gzip_compress(data: &Vec<u8>) -> (r: Vec<u8>)
    ensures
        ungzip_of(r@) == Some(data@),
{
    let mut enc = flate2::write::GzEncoder::new(Vec::new(), flate2::Compression::default());
    std::io::Write::write_all(&mut enc, data.as_slice()).expect("a Vec sink never fails");
    enc.finish().expect("a Vec sink never fails")
}

/// Relies on flate2's gzip decoder (`flate2::read::GzDecoder`): a pure
/// function of the input bytes, yielding the decompressed stream, or an
/// error exactly when the bytes are not a valid compressed stream.
#[verifier::external_body]
fn gzip_decompress(data: &Vec<u8>) -> (r: Result<Vec<u8>, ArchiveError>)
    ensures
        match r {
            Ok(d) => ungzip_of(data@) == Some(d@),
            Err(e) => ungzip_of(data@) is None && e == ArchiveError::Decompress,
        },
{
    let mut dec = flate2::read::GzDecoder::new(data.as_slice());
    let mut out = Vec::new();
    match std::io::Read::read_to_end(&mut dec, &mut out) {
        Ok(_) => Ok(out),
        Err(_) => Err(ArchiveError::Decompress),
    }
}

/// What restoring from archive bytes yields.
pub open spec fn spec_load_archive(c: Seq<u8>) -> Result<SnapshotV, ArchiveError> {
    match ungzip_of(c) {
        Some(d) => spec_decode_snapshot(d),
        None => Err(ArchiveError::Decompress),
    }
}

/// Serializes and compresses the collection: the archive decompresses
/// back to exactly the binary container of this collection.
pub fn save_archive(s: &Snapshot) -> (r: Vec<u8>)
    ensures
        ungzip_of(r@) == Some(enc_snapshot(s@)),
{
    let encoded = encode_snapshot(s);
    gzip_compress(&encoded)
}

/// Decompresses and decodes an archive; a corrupt envelope or an
/// invalid container is a distinct, loud failure.
pub fn load_archive(bytes: &Vec<u8>) -> (r: Result<Snapshot, ArchiveError>)
    ensures
        match r {
            Ok(s) => spec_load_archive(bytes@) == Ok::<SnapshotV, ArchiveError>(s@),
            Err(e) => spec_load_archive(bytes@) == Err::<SnapshotV, ArchiveError>(e),
        },
{
    let decoded = match gzip_decompress(bytes) {
        Ok(d) => d,
        Err(e) => {
            return Err(e);
        },
    };
    decode_snapshot(decoded.as_slice())
}

/// Restoring an archive that decompresses to the encoding of a
/// collection yields that collection exactly; with `save_archive`'s
/// contract this is the full save-then-load round trip.
pub proof fn lemma_archive_round_trip(v: SnapshotV, c: Seq<u8>)
    requires
        v.wf(),
        ungzip_of(c) == Some(enc_snapshot(v)),
    ensures
        spec_load_archive(c) == Ok::<SnapshotV, ArchiveError>(v),
{
    lemma_snapshot_round_trip(v);
}

} // verus!
