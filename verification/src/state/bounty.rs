//! The `Bounty` record, its participant ledger, and their invariants.
//!
//! A bounty is one escrow: a record keyed by `(authority, mint)` plus the
//! custody balance its own derived identity controls. `BountyEscrow` pairs
//! the two so that the operations can speak about both in one transition.

use vstd::prelude::*;

use crate::error::ErrorCode;

verus! {

/// Maximum length, in characters, of a bounty name.
pub const MAX_NAME_LENGTH: usize = 20;

/// Maximum length, in characters, of a bounty description.
pub const MAX_DESCRIPTION_LENGTH: usize = 200;

/// Capacity of the participant ledger.
pub const MAX_PARTICIPANTS: usize = 10;

/// A 256-bit account identity, held as four 64-bit words.
///
/// The core never looks inside an identity: it only compares identities
/// and stores them. The caller converts its own key representation to and
/// from these words.
#[derive(Clone, Copy, PartialEq, Eq, Structural, Debug)]
pub struct Address {
    pub w0: u64,
    pub w1: u64,
    pub w2: u64,
    pub w3: u64,
}

impl Address {
    /// The all-zero identity.
    pub open spec fn spec_zero() -> Address {
        Address { w0: 0, w1: 0, w2: 0, w3: 0 }
    }

    /// The all-zero identity, used as the sentinel for "no claimer yet".
    pub fn zero() -> (r: Address)
        ensures
            r == Address::spec_zero(),
    {
        Address { w0: 0, w1: 0, w2: 0, w3: 0 }
    }
}

/// The yes/no tally of a claim vote. Present in every record; no operation
/// of this core mutates it after creation zeroes it.
#[derive(Clone, Copy, PartialEq, Eq, Structural, Debug)]
pub struct Votes {
    pub yes: u64,
    pub no: u64,
    pub deadline: i64,
}

/// One ledger entry: an address and its cumulative contribution.
#[derive(Clone, Copy, PartialEq, Eq, Structural, Debug)]
pub struct Participant {
    pub address: Address,
    pub amount: u64,
}

/// How a claim on the bounty is to be voted on. Fixed at creation;
/// informational to this core.
#[derive(Clone, Copy, PartialEq, Eq, Structural, Debug)]
pub enum VoteTYpe {
    Poidh,
    Generic,
}

impl VoteTYpe {
    /// What decoding a raw vote-type tag yields.
    pub open spec fn spec_from_u8(value: u8) -> Result<VoteTYpe, ErrorCode> {
        if value == 0 {
            Ok(VoteTYpe::Poidh)
        } else if value == 1 {
            Ok(VoteTYpe::Generic)
        } else {
            Err(ErrorCode::InvalidArgument)
        }
    }

    /// Decode a raw vote-type tag; an unknown tag is a malformed-input
    /// error, never a panic.
    pub fn from_u8(value: u8) -> (r: Result<VoteTYpe, ErrorCode>)
        ensures
            r == VoteTYpe::spec_from_u8(value),
    {
        match value {
            0 => Ok(VoteTYpe::Poidh),
            1 => Ok(VoteTYpe::Generic),
            _ => Err(ErrorCode::InvalidArgument),
        }
    }
}

/// Whether the bounty takes one contributor or many. Fixed at creation.
#[derive(Clone, Copy, PartialEq, Eq, Structural, Debug)]
pub enum BountyType {
    Solo,
    Open,
}

impl BountyType {
    /// What decoding a raw bounty-type tag yields.
    pub open spec fn spec_from_u8(value: u8) -> Result<BountyType, ErrorCode> {
        if value == 0 {
            Ok(BountyType::Solo)
        } else if value == 1 {
            Ok(BountyType::Open)
        } else {
            Err(ErrorCode::InvalidArgument)
        }
    }

    /// Decode a raw bounty-type tag; an unknown tag is a malformed-input
    /// error, never a panic.
    pub fn from_u8(value: u8) -> (r: Result<BountyType, ErrorCode>)
        ensures
            r == BountyType::spec_from_u8(value),
    {
        match value {
            0 => Ok(BountyType::Solo),
            1 => Ok(BountyType::Open),
            _ => Err(ErrorCode::InvalidArgument),
        }
    }
}

/// The raw tag of a `Solo` bounty as stored in a record.
pub const BOUNTY_TYPE_SOLO: u8 = 0;

/// The raw tag of an `Open` bounty as stored in a record.
pub const BOUNTY_TYPE_OPEN: u8 = 1;

/// The caller-supplied arguments of the create operation.
#[derive(Clone, PartialEq, Eq, Debug)]
pub struct CreateBountyParams {
    pub name: String,
    pub description: String,
    pub amount: u64,
    pub bounty_type: u8,
    pub vote_type: u8,
}

/// The mathematical value of `CreateBountyParams`.
#[verifier::ext_equal]
pub ghost struct CreateBountyParamsView {
    pub name: Seq<char>,
    pub description: Seq<char>,
    pub amount: u64,
    pub bounty_type: u8,
    pub vote_type: u8,
}

impl View for CreateBountyParams {
    type V = CreateBountyParamsView;

    open spec fn view(&self) -> CreateBountyParamsView {
        CreateBountyParamsView {
            name: self.name@,
            description: self.description@,
            amount: self.amount,
            bounty_type: self.bounty_type,
            vote_type: self.vote_type,
        }
    }
}

/// The escrow record: one bounty, keyed by `(authority, mint)`.
#[derive(Clone, PartialEq, Eq, Debug)]
pub struct Bounty {
    /// The identity that created the bounty; the sole identity permitted
    /// to close it.
    pub authority: Address,
    /// Discriminator distinguishing bounties of one authority.
    pub mint: Address,
    /// The fungible asset type held in custody.
    pub payment_mint: Address,
    pub name: String,
    pub description: String,
    /// The creator's deposit; immutable after creation.
    pub amount: u64,
    /// Claim metadata; zero until the (out-of-scope) claim phase.
    pub claimer: Address,
    pub created_at: i64,
    pub claim_id: u64,
    pub votes: Votes,
    /// The participant ledger; empty for `Solo`, seeded with the creator
    /// for `Open`.
    pub participants: Vec<Participant>,
    /// Raw tag: 0 is `Solo`, 1 is `Open`.
    pub bounty_type: u8,
    /// Raw tag: 0 is `Poidh`, 1 is `Generic`.
    pub vote_type: u8,
}

/// The mathematical value of a `Bounty` record.
#[verifier::ext_equal]
pub ghost struct BountyView {
    pub authority: Address,
    pub mint: Address,
    pub payment_mint: Address,
    pub name: Seq<char>,
    pub description: Seq<char>,
    pub amount: u64,
    pub claimer: Address,
    pub created_at: i64,
    pub claim_id: u64,
    pub votes: Votes,
    pub participants: Seq<Participant>,
    pub bounty_type: u8,
    pub vote_type: u8,
}

impl View for Bounty {
    type V = BountyView;

    open spec fn view(&self) -> BountyView {
        BountyView {
            authority: self.authority,
            mint: self.mint,
            payment_mint: self.payment_mint,
            name: self.name@,
            description: self.description@,
            amount: self.amount,
            claimer: self.claimer,
            created_at: self.created_at,
            claim_id: self.claim_id,
            votes: self.votes,
            participants: self.participants@,
            bounty_type: self.bounty_type,
            vote_type: self.vote_type,
        }
    }
}

/// Sum of the tracked shares of a ledger.
pub open spec fn sum_amounts(s: Seq<Participant>) -> int
    decreases s.len(),
{
    if s.len() == 0 {
        0
    } else {
        sum_amounts(s.drop_last()) + s.last().amount
    }
}

/// Whether some ledger entry is for `a`.
pub open spec fn contains_address(s: Seq<Participant>, a: Address) -> bool {
    exists|i: int| 0 <= i < s.len() && s[i].address == a
}

/// Index of the first ledger entry for `a`, or -1 if there is none.
pub open spec fn first_index_of(s: Seq<Participant>, a: Address) -> int
    decreases s.len(),
{
    if s.len() == 0 {
        -1
    } else if s[0].address == a {
        0
    } else {
        let r = first_index_of(s.subrange(1, s.len() as int), a);
        if r == -1 {
            -1
        } else {
            r + 1
        }
    }
}

/// No two ledger entries are for the same address.
pub open spec fn addresses_unique(s: Seq<Participant>) -> bool {
    forall|i: int, j: int| 0 <= i < j < s.len() ==> s[i].address != s[j].address
}

/// No ledger entry tracks a zero share.
pub open spec fn amounts_positive(s: Seq<Participant>) -> bool {
    forall|i: int| 0 <= i < s.len() ==> s[i].amount > 0
}

/// A view equal to `v` except for the participant ledger.
pub open spec fn with_participants(v: BountyView, s: Seq<Participant>) -> BountyView {
    BountyView { participants: s, ..v }
}

/// What adding a fresh ledger entry yields: refused if the address already
/// has an entry or the ledger is at capacity, else the entry is appended.
pub open spec fn spec_add_participant(
    s: Seq<Participant>,
    address: Address,
    amount: u64,
) -> Result<Seq<Participant>, ErrorCode> {
    if contains_address(s, address) {
        Err(ErrorCode::ParticipantAlreadyExists)
    } else if s.len() >= MAX_PARTICIPANTS {
        Err(ErrorCode::InsufficientShares)
    } else {
        Ok(s.push(Participant { address, amount }))
    }
}

/// What growing an existing ledger entry yields: refused if the address
/// has no entry or the checked addition would wrap, else that entry's
/// share grows by `amount`.
pub open spec fn spec_increase_participant_shares(
    s: Seq<Participant>,
    address: Address,
    amount: u64,
) -> Result<Seq<Participant>, ErrorCode> {
    let i = first_index_of(s, address);
    if i == -1 {
        Err(ErrorCode::ParticipantDoesNotExist)
    } else if s[i].amount + amount > u64::MAX {
        Err(ErrorCode::ArithmeticOverflow)
    } else {
        Ok(s.update(i, Participant { address, amount: (s[i].amount + amount) as u64 }))
    }
}

/// `first_index_of` is what its name says: the index it returns carries an
/// entry for `a`, everything before that index does not, and -1 means the
/// ledger holds no entry for `a` at all.
pub proof fn lemma_first_index_of(s: Seq<Participant>, a: Address)
    ensures
        first_index_of(s, a) == -1 <==> !contains_address(s, a),
        first_index_of(s, a) != -1 ==> 0 <= first_index_of(s, a) < s.len()
            && s[first_index_of(s, a)].address == a
            && (forall|j: int| 0 <= j < first_index_of(s, a) ==> s[j].address != a),
    decreases s.len(),
{
    if s.len() == 0 {
    } else if s[0].address == a {
    } else {
        let tail = s.subrange(1, s.len() as int);
        lemma_first_index_of(tail, a);
        assert(forall|j: int| 1 <= j < s.len() ==> s[j] == tail[j - 1]);
        if first_index_of(tail, a) == -1 {
            assert(!contains_address(s, a)) by {
                assert(forall|i: int| 1 <= i < s.len() && s[i].address == a
                    ==> tail[i - 1].address == a && contains_address(tail, a));
            }
        } else {
            assert(contains_address(s, a)) by {
                let i = first_index_of(tail, a);
                assert(s[i + 1].address == a);
            }
        }
    }
}

/// A scan that saw no entry for `a` before `k` and one at `k` has found
/// the first index.
pub proof fn lemma_first_index_of_found(s: Seq<Participant>, a: Address, k: int)
    requires
        0 <= k < s.len(),
        s[k].address == a,
        forall|j: int| 0 <= j < k ==> s[j].address != a,
    ensures
        first_index_of(s, a) == k,
    decreases k,
{
    if k > 0 {
        let tail = s.subrange(1, s.len() as int);
        assert(forall|j: int| 0 <= j < tail.len() ==> tail[j] == s[j + 1]);
        lemma_first_index_of_found(tail, a, k - 1);
    }
}

/// Appending an entry grows the tracked sum by exactly that entry's share.
pub proof fn lemma_sum_push(s: Seq<Participant>, p: Participant)
    ensures
        sum_amounts(s.push(p)) == sum_amounts(s) + p.amount,
{
    assert(s.push(p).drop_last() =~= s);
}

/// Replacing one entry moves the tracked sum by the difference of the two
/// shares.
pub proof fn lemma_sum_update(s: Seq<Participant>, i: int, p: Participant)
    requires
        0 <= i < s.len(),
    ensures
        sum_amounts(s.update(i, p)) == sum_amounts(s) - s[i].amount + p.amount,
    decreases s.len(),
{
    let s2 = s.update(i, p);
    if i == s.len() - 1 {
        assert(s2.drop_last() =~= s.drop_last());
        assert(s2.last() == p);
    } else {
        assert(s2.drop_last() =~= s.drop_last().update(i, p));
        assert(s2.last() == s.last());
        lemma_sum_update(s.drop_last(), i, p);
    }
}

impl BountyView {
    /// Whether the record is a solo bounty.
    pub open spec fn is_solo(self) -> bool {
        self.bounty_type == BOUNTY_TYPE_SOLO
    }

    /// Whether the record is an open bounty.
    pub open spec fn is_open(self) -> bool {
        self.bounty_type == BOUNTY_TYPE_OPEN
    }

    /// The participant ledger's own invariant: bounded, no zero share, no
    /// duplicate address.
    pub open spec fn ledger_wf(self) -> bool {
        &&& self.participants.len() <= MAX_PARTICIPANTS
        &&& amounts_positive(self.participants)
        &&& addresses_unique(self.participants)
    }

    /// Both stored tags decode to a known variant.
    pub open spec fn types_valid(self) -> bool {
        &&& self.bounty_type <= 1
        &&& self.vote_type <= 1
    }

    /// Name and description fit the space the record reserves for them.
    pub open spec fn text_wf(self) -> bool {
        &&& self.name.len() <= MAX_NAME_LENGTH
        &&& self.description.len() <= MAX_DESCRIPTION_LENGTH
    }

    /// Everything this core guarantees of a record it has produced: the
    /// ledger invariant, valid tags, bounded text, an empty ledger for a
    /// solo bounty, and a non-empty one (the creator is enrolled) for an
    /// open bounty.
    pub open spec fn wf(self) -> bool {
        &&& self.ledger_wf()
        &&& self.types_valid()
        &&& self.text_wf()
        &&& (self.is_solo() ==> self.participants.len() == 0)
        &&& (self.is_open() ==> self.participants.len() > 0)
    }
}

impl Bounty {
    /// The record `new` constructs.
    pub open spec fn spec_new(
        authority: Address,
        mint: Address,
        payment_mint: Address,
        name: Seq<char>,
        description: Seq<char>,
        amount: u64,
        created_at: i64,
        bounty_type: u8,
        vote_type: u8,
    ) -> BountyView {
        BountyView {
            authority,
            mint,
            payment_mint,
            name,
            description,
            amount,
            claimer: Address::spec_zero(),
            created_at,
            claim_id: 0,
            votes: Votes { yes: 0, no: 0, deadline: 0 },
            participants: if bounty_type == BOUNTY_TYPE_OPEN {
                seq![Participant { address: authority, amount }]
            } else {
                Seq::empty()
            },
            bounty_type,
            vote_type,
        }
    }

    /// Build a fresh record: claim metadata and votes zeroed, and the
    /// creator enrolled as the one participant when the bounty is open.
    pub fn new(
        authority: Address,
        mint: Address,
        payment_mint: Address,
        name: String,
        description: String,
        amount: u64,
        created_at: i64,
        bounty_type: u8,
        vote_type: u8,
    ) -> (r: Bounty)
        ensures
            r@ == Bounty::spec_new(
                authority,
                mint,
                payment_mint,
                name@,
                description@,
                amount,
                created_at,
                bounty_type,
                vote_type,
            ),
    {
        let ghost name_v = name@;
        let ghost description_v = description@;
        let mut bounty = Bounty {
            authority,
            mint,
            payment_mint,
            name,
            description,
            amount,
            claimer: Address::zero(),
            created_at,
            claim_id: 0,
            votes: Votes { yes: 0, no: 0, deadline: 0 },
            participants: Vec::new(),
            bounty_type,
            vote_type,
        };
        if bounty_type == BOUNTY_TYPE_OPEN {
            bounty.participants.push(Participant { address: authority, amount });
        }
        proof {
            assert(bounty@ =~~= Bounty::spec_new(
                authority,
                mint,
                payment_mint,
                name_v,
                description_v,
                amount,
                created_at,
                bounty_type,
                vote_type,
            ));
        }
        bounty
    }

    /// The stable seed tuple from which the external derivation
    /// collaborator computes the bounty's custody identity: a literal tag,
    /// the authority, and the mint.
    pub fn as_seeds(&self) -> (r: (Vec<u8>, Address, Address))
        ensures
            r.0@ == seed_tag(),
            r.1 == self.authority,
            r.2 == self.mint,
    {
        let mut tag: Vec<u8> = Vec::new();
        tag.push(98);
        tag.push(111);
        tag.push(117);
        tag.push(110);
        tag.push(116);
        tag.push(121);
        proof {
            assert(tag@ =~= seed_tag());
        }
        (tag, self.authority, self.mint)
    }

    /// Index of the first ledger entry for `address`, if there is one.
    pub fn participant_index(&self, address: &Address) -> (r: Option<usize>)
        ensures
            match r {
                Some(i) => first_index_of(self@.participants, *address) == i as int,
                None => first_index_of(self@.participants, *address) == -1,
            },
    {
        let n = self.participants.len();
        let mut k: usize = 0;
        while k < n
            invariant
                n == self.participants@.len(),
                0 <= k <= n,
                forall|j: int| 0 <= j < k ==> self.participants@[j].address != *address,
            decreases n - k,
        {
            if self.participants[k].address == *address {
                proof {
                    lemma_first_index_of_found(self@.participants, *address, k as int);
                }
                return Some(k);
            }
            k += 1;
        }
        proof {
            lemma_first_index_of(self@.participants, *address);
        }
        None
    }

    /// Append a fresh ledger entry for `address`, exactly as
    /// `spec_add_participant` says; on a refusal the record is untouched.
    pub fn add_participant(&mut self, address: Address, amount: u64) -> (r: Result<(), ErrorCode>)
        requires
            amount > 0,
        ensures
            match spec_add_participant(old(self)@.participants, address, amount) {
                Ok(s2) => r == Ok::<(), ErrorCode>(()) && final(self)@ == with_participants(
                    old(self)@,
                    s2,
                ),
                Err(e) => r == Err::<(), ErrorCode>(e) && *final(self) == *old(self),
            },
    {
        proof {
            lemma_first_index_of(self@.participants, address);
        }
        match self.participant_index(&address) {
            Some(_) => Err(ErrorCode::ParticipantAlreadyExists),
            None => {
                if self.participants.len() >= MAX_PARTICIPANTS {
                    Err(ErrorCode::InsufficientShares)
                } else {
                    self.participants.push(Participant { address, amount });
                    proof {
                        assert(self@ =~~= with_participants(
                            old(self)@,
                            old(self)@.participants.push(Participant { address, amount }),
                        ));
                    }
                    Ok(())
                }
            },
        }
    }

    /// Grow the existing ledger entry for `address` by `amount` with a
    /// checked addition, exactly as `spec_increase_participant_shares`
    /// says; on a refusal the record is untouched.
    pub fn increase_participant_shares(&mut self, address: Address, amount: u64) -> (r: Result<
        (),
        ErrorCode,
    >)
        ensures
            match spec_increase_participant_shares(old(self)@.participants, address, amount) {
                Ok(s2) => r == Ok::<(), ErrorCode>(()) && final(self)@ == with_participants(
                    old(self)@,
                    s2,
                ),
                Err(e) => r == Err::<(), ErrorCode>(e) && *final(self) == *old(self),
            },
    {
        match self.participant_index(&address) {
            None => Err(ErrorCode::ParticipantDoesNotExist),
            Some(i) => {
                proof {
                    lemma_first_index_of(self@.participants, address);
                }
                let current = self.participants[i].amount;
                match current.checked_add(amount) {
                    None => Err(ErrorCode::ArithmeticOverflow),
                    Some(total) => {
                        self.participants[i] = Participant { address, amount: total };
                        proof {
                            assert(self@ =~~= with_participants(
                                old(self)@,
                                old(self)@.participants.update(
                                    i as int,
                                    Participant { address, amount: total },
                                ),
                            ));
                        }
                        Ok(())
                    },
                }
            },
        }
    }

    /// Refuse to proceed while the participant ledger is non-empty.
    pub fn validate_participants_empty(&self) -> (r: Result<(), ErrorCode>)
        ensures
            r == if self@.participants.len() == 0 {
                Ok::<(), ErrorCode>(())
            } else {
                Err::<(), ErrorCode>(ErrorCode::ParticipantAlreadyExists)
            },
    {
        if self.participants.len() == 0 {
            Ok(())
        } else {
            Err(ErrorCode::ParticipantAlreadyExists)
        }
    }

    /// Refuse a raw bounty-type tag that decodes to no known variant.
    pub fn validate_bounty_type(&self, bounty_type: u8) -> (r: Result<(), ErrorCode>)
        ensures
            r == if bounty_type <= 1 {
                Ok::<(), ErrorCode>(())
            } else {
                Err::<(), ErrorCode>(ErrorCode::InvalidArgument)
            },
    {
        match BountyType::from_u8(bounty_type) {
            Ok(_) => Ok(()),
            Err(e) => Err(e),
        }
    }

    /// Refuse a raw vote-type tag that decodes to no known variant.
    pub fn validate_vote_type(&self, vote_type: u8) -> (r: Result<(), ErrorCode>)
        ensures
            r == if vote_type <= 1 {
                Ok::<(), ErrorCode>(())
            } else {
                Err::<(), ErrorCode>(ErrorCode::InvalidArgument)
            },
    {
        match VoteTYpe::from_u8(vote_type) {
            Ok(_) => Ok(()),
            Err(e) => Err(e),
        }
    }
}

/// The ASCII bytes of the literal seed tag "bounty".
pub open spec fn seed_tag() -> Seq<u8> {
    seq![98u8, 111u8, 117u8, 110u8, 116u8, 121u8]
}

/// One whole escrow: the bounty record together with the token balance
/// its custody account holds.
#[derive(Clone, PartialEq, Eq, Debug)]
pub struct BountyEscrow {
    pub bounty: Bounty,
    /// Balance of the custody token account the bounty's derived identity
    /// controls.
    pub custody: u64,
}

/// The mathematical value of a `BountyEscrow`.
#[verifier::ext_equal]
pub ghost struct BountyEscrowView {
    pub bounty: BountyView,
    pub custody: u64,
}

impl View for BountyEscrow {
    type V = BountyEscrowView;

    open spec fn view(&self) -> BountyEscrowView {
        BountyEscrowView { bounty: self.bounty@, custody: self.custody }
    }
}

impl BountyEscrowView {
    /// The escrow invariant: a well-formed record, and a custody balance
    /// that accounts exactly for what was pooled — the creator's deposit
    /// for a solo bounty, the sum of all tracked shares for an open one.
    pub open spec fn wf(self) -> bool {
        &&& self.bounty.wf()
        &&& (self.bounty.is_solo() ==> self.custody == self.bounty.amount)
        &&& (self.bounty.is_open() ==> self.custody as int == sum_amounts(self.bounty.participants))
    }
}

} // verus!
