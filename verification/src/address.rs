use anchor_lang::prelude::Pubkey;
use vstd::prelude::*;

verus! {

broadcast use vstd::array::group_array_axioms;

/// The identity of a party, or the place where a record is kept: 32 bytes.
#[derive(Clone, Copy, Debug, PartialEq, Eq, Hash)]
pub struct Address {
    pub bytes: [u8; 32],
}

impl View for Address {
    type V = Seq<u8>;

    open spec fn view(&self) -> Seq<u8> {
        self.bytes@
    }
}

impl Address {
    pub fn new(bytes: [u8; 32]) -> (a: Address)
        ensures
            a.bytes == bytes,
    {
        Address { bytes }
    }

    pub fn to_bytes(&self) -> (bytes: [u8; 32])
        ensures
            bytes == self.bytes,
    {
        self.bytes
    }

    /// Two addresses are the same exactly where their bytes are.
    pub proof fn lemma_same_bytes(a: Address, b: Address)
        ensures
            (a == b) <==> (a@ == b@),
    {
        if a@ == b@ {
            assert(a.bytes@ =~= b.bytes@);
            assert(a.bytes == b.bytes);
        }
    }

    /// Whether two addresses are the same address.
    pub fn same(&self, other: &Address) -> (r: bool)
        ensures
            r == (*self == *other),
    {
        let mut i: usize = 0;
        while i < 32
            invariant
                i <= 32,
                forall|j: int| 0 <= j < i ==> self.bytes@[j] == other.bytes@[j],
            decreases 32 - i,
        {
            if self.bytes[i] != other.bytes[i] {
                return false;
            }
            i += 1;
        }
        proof {
            assert(self.bytes@ =~= other.bytes@);
            assert(self.bytes == other.bytes);
        }
        true
    }
}

/// The address that the ledger's derivation gives for a list of seeds under a
/// program, or `None` where it gives none (a seed longer than 32 bytes, more
/// than 16 seeds, or a hash that is a point of the curve).
pub uninterp spec fn created_program_address(seeds: Seq<Seq<u8>>, program_id: Seq<u8>) -> Option<Seq<u8>>;

/// The address and bump seed that the ledger's search finds for a list of
/// seeds under a program, or `None` where no bump seed gives an address.
pub uninterp spec fn found_program_address(seeds: Seq<Seq<u8>>, program_id: Seq<u8>) -> Option<(Seq<u8>, u8)>;

pub open spec fn found_view(found: Option<(Address, u8)>) -> Option<(Seq<u8>, u8)> {
    match found {
        Some((address, bump)) => Some((address@, bump)),
        None => None,
    }
}

pub open spec fn created_view(created: Option<Address>) -> Option<Seq<u8>> {
    match created {
        Some(address) => Some(address@),
        None => None,
    }
}

/// `Pubkey::try_find_program_address` on three seeds. The result is a function
/// of the seeds and the program alone. Where the search finds a bump seed, the
/// address is the one that `Pubkey::create_program_address` gives for the same
/// seeds followed by that bump seed as a fourth, one-byte seed: the search
/// returns the first bump seed for which that call succeeds, with its result.
#[verifier::external_body]
fn find_program_address(tag: &[u8], owner: &[u8], key: &[u8], program_id: &Address) -> (found: Option<(Address, u8)>)
    ensures
        found_view(found) == found_program_address(seq![tag@, owner@, key@], program_id@),
        found matches Some((address, bump)) ==> created_program_address(
            seq![tag@, owner@, key@, seq![bump]],
            program_id@,
        ) == Some(address@),
{
    match Pubkey::try_find_program_address(&[tag, owner, key], &Pubkey::new_from_array(program_id.bytes)) {
        Some((address, bump)) => Some((Address { bytes: address.to_bytes() }, bump)),
        None => None,
    }
}

/// `Pubkey::create_program_address` on three seeds and a bump seed. The result
/// is a function of the seeds and the program alone; an error of the call is
/// `None` here.
#[verifier::external_body]
fn create_program_address(tag: &[u8], owner: &[u8], key: &[u8], bump: u8, program_id: &Address) -> (created: Option<Address>)
    ensures
        created_view(created) == created_program_address(
            seq![tag@, owner@, key@, seq![bump]],
            program_id@,
        ),
{
    match Pubkey::create_program_address(&[tag, owner, key, &[bump]], &Pubkey::new_from_array(program_id.bytes)) {
        Ok(address) => Some(Address { bytes: address.to_bytes() }),
        Err(_) => None,
    }
}

/// The namespace of plan addresses: the bytes of the word `plan`.
pub open spec fn plan_tag() -> Seq<u8> {
    seq![112u8, 108u8, 97u8, 110u8]
}

/// The namespace of subscription addresses: the bytes of the word `subscription`.
pub open spec fn subscription_tag() -> Seq<u8> {
    seq![115u8, 117u8, 98u8, 115u8, 99u8, 114u8, 105u8, 112u8, 116u8, 105u8, 111u8, 110u8]
}

/// A plan id as two bytes, low byte first.
pub open spec fn plan_id_bytes(plan_id: u16) -> Seq<u8> {
    seq![(plan_id % 256) as u8, (plan_id / 256) as u8]
}

/// Where the plan `plan_id` of `merchant` is kept, with the bump seed that
/// goes into its record.
pub open spec fn plan_address(merchant: Address, plan_id: u16, program_id: Address) -> Option<(Seq<u8>, u8)> {
    found_program_address(seq![plan_tag(), merchant@, plan_id_bytes(plan_id)], program_id@)
}

/// Where the plan `plan_id` of `merchant` is kept if its record holds `bump`.
pub open spec fn plan_address_with_bump(merchant: Address, plan_id: u16, bump: u8, program_id: Address) -> Option<Seq<u8>> {
    created_program_address(seq![plan_tag(), merchant@, plan_id_bytes(plan_id), seq![bump]], program_id@)
}

/// Where the subscription of `subscriber` to the plan at `plan` is kept, with
/// the bump seed that goes into its record.
pub open spec fn subscription_address(subscriber: Address, plan: Address, program_id: Address) -> Option<(Seq<u8>, u8)> {
    found_program_address(seq![subscription_tag(), subscriber@, plan@], program_id@)
}

/// Where the subscription of `subscriber` to the plan at `plan` is kept if its
/// record holds `bump`.
pub open spec fn subscription_address_with_bump(subscriber: Address, plan: Address, bump: u8, program_id: Address) -> Option<Seq<u8>> {
    created_program_address(seq![subscription_tag(), subscriber@, plan@, seq![bump]], program_id@)
}

fn plan_id_to_bytes(plan_id: u16) -> (bytes: [u8; 2])
    ensures
        bytes@ == plan_id_bytes(plan_id),
{
    let bytes: [u8; 2] = [(plan_id % 256) as u8, (plan_id / 256) as u8];
    proof {
        assert(bytes@ =~= plan_id_bytes(plan_id));
    }
    bytes
}

/// Finds the address of a merchant's plan and the bump seed of its record.
pub fn derive_plan_address(merchant: &Address, plan_id: u16, program_id: &Address) -> (found: Option<(Address, u8)>)
    ensures
        found_view(found) == plan_address(*merchant, plan_id, *program_id),
        found matches Some((address, bump)) ==> plan_address_with_bump(*merchant, plan_id, bump, *program_id)
            == Some(address@),
{
    let tag: [u8; 4] = [112u8, 108u8, 97u8, 110u8];
    let id = plan_id_to_bytes(plan_id);
    proof {
        assert(tag@ =~= plan_tag());
    }
    find_program_address(tag.as_slice(), merchant.bytes.as_slice(), id.as_slice(), program_id)
}

/// Recomputes the address of a merchant's plan from the bump seed in its record.
pub fn locate_plan(merchant: &Address, plan_id: u16, bump: u8, program_id: &Address) -> (created: Option<Address>)
    ensures
        created_view(created) == plan_address_with_bump(*merchant, plan_id, bump, *program_id),
{
    let tag: [u8; 4] = [112u8, 108u8, 97u8, 110u8];
    let id = plan_id_to_bytes(plan_id);
    proof {
        assert(tag@ =~= plan_tag());
    }
    create_program_address(tag.as_slice(), merchant.bytes.as_slice(), id.as_slice(), bump, program_id)
}

/// Finds the address of a subscriber's subscription to a plan and the bump
/// seed of its record.
pub fn derive_subscription_address(subscriber: &Address, plan: &Address, program_id: &Address) -> (found: Option<(Address, u8)>)
    ensures
        found_view(found) == subscription_address(*subscriber, *plan, *program_id),
        found matches Some((address, bump)) ==> subscription_address_with_bump(
            *subscriber,
            *plan,
            bump,
            *program_id,
        ) == Some(address@),
{
    let tag: [u8; 12] = [115u8, 117u8, 98u8, 115u8, 99u8, 114u8, 105u8, 112u8, 116u8, 105u8, 111u8, 110u8];
    proof {
        assert(tag@ =~= subscription_tag());
    }
    find_program_address(tag.as_slice(), subscriber.bytes.as_slice(), plan.bytes.as_slice(), program_id)
}

/// Recomputes the address of a subscription from the bump seed in its record.
pub fn locate_subscription(subscriber: &Address, plan: &Address, bump: u8, program_id: &Address) -> (created: Option<Address>)
    ensures
        created_view(created) == subscription_address_with_bump(*subscriber, *plan, bump, *program_id),
{
    let tag: [u8; 12] = [115u8, 117u8, 98u8, 115u8, 99u8, 114u8, 105u8, 112u8, 116u8, 105u8, 111u8, 110u8];
    proof {
        assert(tag@ =~= subscription_tag());
    }
    create_program_address(tag.as_slice(), subscriber.bytes.as_slice(), plan.bytes.as_slice(), bump, program_id)
}

} // verus!
