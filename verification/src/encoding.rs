//! The wire form of the messages that go out to the token ledger and to the
//! receipt issuer. The encoding itself is the work of `cosmwasm_std`; this
//! module states what the library relies on.

use vstd::prelude::*;

verus! {

/// `cosmwasm_std::StdError`, the error with which the encoder fails. Nothing
/// is read from it.
#[verifier::external_type_specification]
#[verifier::external_body]
pub struct ExStdError(cosmwasm_std::StdError);

/// The wire form of a `cw20::Cw20ExecuteMsg::Transfer` of `amount` to
/// `recipient`, or `None` where the encoder gives none.
pub uninterp spec fn transfer_payload(recipient: Seq<char>, amount: u128) -> Option<Seq<u8>>;

/// The wire form of a `cw721_base::ExecuteMsg::Mint` of the token `token_id`
/// to `owner` with the given URI and without an extension, or `None` where
/// the encoder gives none.
pub uninterp spec fn mint_payload(
    token_id: Seq<char>,
    owner: Seq<char>,
    token_uri: Option<Seq<char>>,
) -> Option<Seq<u8>>;

/// Calls `cosmwasm_std::to_json_binary` on a `cw20::Cw20ExecuteMsg::Transfer`
/// with the given recipient and amount. Trusted: the bytes depend on the
/// recipient and the amount alone, and so does whether the call fails.
#[verifier::external_body]
pub(crate) fn encode_transfer(recipient: &str, amount: u128) -> (encoded: Result<
    Vec<u8>,
    cosmwasm_std::StdError,
>)
    ensures
        transfer_payload(recipient@, amount) == match encoded {
            Ok(bytes) => Some(bytes@),
            Err(_) => None,
        },
{
    let msg = cw20::Cw20ExecuteMsg::Transfer {
        recipient: recipient.to_string(),
        amount: cosmwasm_std::Uint128::new(amount),
    };
    cosmwasm_std::to_json_binary(&msg).map(|binary| binary.0)
}

/// Calls `cosmwasm_std::to_json_binary` on a `cw721_base::ExecuteMsg::Mint`
/// with the given token, owner and URI, and with no extension. Trusted: the
/// bytes depend on these three alone, and so does whether the call fails.
#[verifier::external_body]
pub(crate) fn encode_mint(token_id: &str, owner: &str, token_uri: Option<String>) -> (encoded:
    Result<Vec<u8>, cosmwasm_std::StdError>)
    ensures
        mint_payload(
            token_id@,
            owner@,
            match token_uri {
                Some(uri) => Some(uri@),
                None => None,
            },
        ) == match encoded {
            Ok(bytes) => Some(bytes@),
            Err(_) => None,
        },
{
    let msg: cw721_base::ExecuteMsg<cw721_base::Extension, cosmwasm_std::Empty> =
        cw721_base::ExecuteMsg::Mint(
        cw721_base::MintMsg {
            token_id: token_id.to_string(),
            owner: owner.to_string(),
            token_uri,
            extension: None,
        },
    );
    cosmwasm_std::to_json_binary(&msg).map(|binary| binary.0)
}

} // verus!
