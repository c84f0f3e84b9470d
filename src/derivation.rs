use vstd::prelude::*;
use anchor_lang::prelude::Pubkey;
use crate::address::Address;
use crate::error::PresaleError;
use vstd::slice::slice_to_vec;
use vstd::string::StrSliceExecFns;
use vstd::string::StringSliceAdditionalSpecFns;

verus! {

/// The program-derived address and bump seed for `seeds` under `program_id`,
/// or `None` where the seeds are invalid or no bump gives an off-curve address.
pub uninterp spec fn program_address_of(seeds: Seq<Seq<u8>>, program_id: Seq<u8>) -> Option<(Seq<u8>, u8)>;

/// Relies on `Pubkey::try_find_program_address` (solana-pubkey, re-exported by
/// anchor-lang): a search over bump seeds whose result depends on the seeds
/// and the program id alone, and which returns `None` instead of panicking.
#[verifier::external_body]
fn find_program_address(seeds: &Vec<Vec<u8>>, program_id: &Address) -> (r: Option<(Address, u8)>)
    ensures
        r matches Some((a, bump)) ==> program_address_of(seeds.deep_view(), program_id@) == Some((a@, bump)),
        r is None ==> program_address_of(seeds.deep_view(), program_id@) is None,
{
    let slices: Vec<&[u8]> = seeds.iter().map(|s| s.as_slice()).collect();
    let program = Pubkey::new_from_array(program_id.bytes);
    Pubkey::try_find_program_address(&slices, &program).map(|(k, bump)| (Address { bytes: k.to_bytes() }, bump))
}

/// The role of an account whose address is derived from the program id and
/// fixed seeds: a tag naming the role, then the keys the role is scoped to.
#[derive(Clone, Copy, Debug, PartialEq, Eq)]
pub enum AccountRole {
    Platform,
    Presale { mint: Address },
    TokenVault { presale: Address },
    EcosystemVault { presale: Address },
    PublicSolVault { presale: Address },
    LpAuthority { presale: Address },
    Position { presale: Address, user: Address },
    Whitelist { presale: Address, user: Address },
}

/// The tag that starts the seeds of a role.
pub open spec fn role_tag(role: AccountRole) -> Seq<u8> {
    match role {
        AccountRole::Platform => "platform".spec_bytes(),
        AccountRole::Presale { .. } => "presale".spec_bytes(),
        AccountRole::TokenVault { .. } => "token_vault".spec_bytes(),
        AccountRole::EcosystemVault { .. } => "ecosystem_vault".spec_bytes(),
        AccountRole::PublicSolVault { .. } => "public_sol_vault".spec_bytes(),
        AccountRole::LpAuthority { .. } => "lp_authority".spec_bytes(),
        AccountRole::Position { .. } => "position".spec_bytes(),
        AccountRole::Whitelist { .. } => "whitelist".spec_bytes(),
    }
}

/// The keys, after the tag, that scope a role's address.
pub open spec fn role_keys(role: AccountRole) -> Seq<Seq<u8>> {
    match role {
        AccountRole::Platform => seq![],
        AccountRole::Presale { mint } => seq![mint@],
        AccountRole::TokenVault { presale } => seq![presale@],
        AccountRole::EcosystemVault { presale } => seq![presale@],
        AccountRole::PublicSolVault { presale } => seq![presale@],
        AccountRole::LpAuthority { presale } => seq![presale@],
        AccountRole::Position { presale, user } => seq![presale@, user@],
        AccountRole::Whitelist { presale, user } => seq![presale@, user@],
    }
}

/// The full seeds of a role: its tag followed by its keys.
pub open spec fn role_seeds(role: AccountRole) -> Seq<Seq<u8>> {
    seq![role_tag(role)] + role_keys(role)
}

/// The address (and bump seed) of a role's account under `program_id`.
pub open spec fn role_address(role: AccountRole, program_id: Address) -> Option<(Seq<u8>, u8)> {
    program_address_of(role_seeds(role), program_id@)
}

fn key_seed(key: &Address) -> (r: Vec<u8>)
    ensures
        r.deep_view() == key@,
{
    let r = slice_to_vec(key.bytes.as_slice());
    assert(r.deep_view() =~= r@);
    r
}

fn tag_seed(tag: &str) -> (r: Vec<u8>)
    ensures
        r.deep_view() == tag.spec_bytes(),
{
    let r = tag.as_bytes_vec();
    assert(r.deep_view() =~= r@);
    r
}

/// The seeds of a role, as byte strings.
pub fn role_seed_bytes(role: &AccountRole) -> (r: Vec<Vec<u8>>)
    ensures
        r.deep_view() == role_seeds(*role),
{
    let mut r: Vec<Vec<u8>> = Vec::new();
    match role {
        AccountRole::Platform => {
            r.push(tag_seed("platform"));
        },
        AccountRole::Presale { mint } => {
            r.push(tag_seed("presale"));
            r.push(key_seed(mint));
        },
        AccountRole::TokenVault { presale } => {
            r.push(tag_seed("token_vault"));
            r.push(key_seed(presale));
        },
        AccountRole::EcosystemVault { presale } => {
            r.push(tag_seed("ecosystem_vault"));
            r.push(key_seed(presale));
        },
        AccountRole::PublicSolVault { presale } => {
            r.push(tag_seed("public_sol_vault"));
            r.push(key_seed(presale));
        },
        AccountRole::LpAuthority { presale } => {
            r.push(tag_seed("lp_authority"));
            r.push(key_seed(presale));
        },
        AccountRole::Position { presale, user } => {
            r.push(tag_seed("position"));
            r.push(key_seed(presale));
            r.push(key_seed(user));
        },
        AccountRole::Whitelist { presale, user } => {
            r.push(tag_seed("whitelist"));
            r.push(key_seed(presale));
            r.push(key_seed(user));
        },
    }
    assert(r.deep_view() =~= role_seeds(*role));
    r
}

/// Derives the address and bump seed of a role's account under `program_id`;
/// `None` where no valid address exists for the seeds.
pub fn derive_address(role: &AccountRole, program_id: &Address) -> (r: Option<(Address, u8)>)
    ensures
        r matches Some((a, bump)) ==> role_address(*role, *program_id) == Some((a@, bump)),
        r is None ==> role_address(*role, *program_id) is None,
{
    let seeds = role_seed_bytes(role);
    find_program_address(&seeds, program_id)
}

/// Accepts `supplied` when it is the derived address, handing back the bump
/// seed; rejects it otherwise with `InvalidAccountAddress`.
pub fn address_matches(derived: Option<(Address, u8)>, supplied: &Address) -> (r: Result<u8, PresaleError>)
    ensures
        derived matches Some((a, bump)) ==> r == (if a@ == supplied@ {
            Ok::<u8, PresaleError>(bump)
        } else {
            Err(PresaleError::InvalidAccountAddress)
        }),
        derived is None ==> r == Err::<u8, PresaleError>(PresaleError::InvalidAccountAddress),
{
    match derived {
        Some((a, bump)) => {
            if a.same_as(supplied) {
                Ok(bump)
            } else {
                Err(PresaleError::InvalidAccountAddress)
            }
        },
        None => Err(PresaleError::InvalidAccountAddress),
    }
}

/// Checks that a caller-supplied account is the one derived for its role;
/// hands back the bump seed, or rejects with `InvalidAccountAddress`.
pub fn check_account_address(role: &AccountRole, program_id: &Address, supplied: &Address) -> (r: Result<u8, PresaleError>)
    ensures
        role_address(*role, *program_id) matches Some((a, bump)) ==> r == (if a == supplied@ {
            Ok::<u8, PresaleError>(bump)
        } else {
            Err(PresaleError::InvalidAccountAddress)
        }),
        role_address(*role, *program_id) is None ==> r == Err::<u8, PresaleError>(
            PresaleError::InvalidAccountAddress,
        ),
{
    let derived = derive_address(role, program_id);
    address_matches(derived, supplied)
}

} // verus!
