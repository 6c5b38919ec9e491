//! Token descriptors and fee kinds.

use vstd::prelude::*;
use vstd::string::StringSliceAdditionalSpecFns;
use crate::abi::{hex_address, parse_hex_address};
use crate::basic::{Address, TokenId};
use crate::decimal::{decimal_value, parse_decimal};

verus! {

/// A value that names a token: its id, its base-chain address or its symbol.
#[derive(Clone, Debug, PartialEq, Eq, Hash)]
pub enum TokenLike {
    Id(TokenId),
    Address(Address),
    Symbol(String),
}

/// A text with a leading `0x` removed.
pub open spec fn without_hex_prefix(s: Seq<u8>) -> Seq<u8> {
    if s.len() >= 2 && s[0] == 48 && s[1] == 120 && vstd::utf8::is_char_boundary(s, 2) {
        s.subrange(2, s.len() as int)
    } else {
        s
    }
}

impl TokenLike {
    /// Reads a token descriptor given the address that the text, without a
    /// leading `0x`, denotes (if it denotes one): a decimal id first, then
    /// the address, else the text as a symbol.
    pub fn parse_with_address(value: &str, address: Option<[u8; 20]>) -> (r: TokenLike)
        ensures
            decimal_value(value.spec_bytes(), 65535) matches Some(v) ==> r == TokenLike::Id(TokenId(v as u16)),
            decimal_value(value.spec_bytes(), 65535) is None && address is Some ==> r == TokenLike::Address(Address(address->Some_0)),
            decimal_value(value.spec_bytes(), 65535) is None && address is None ==> (r matches TokenLike::Symbol(s) && s@ == value@),
    {
        match parse_decimal(value.as_bytes(), 65535) {
            Some(id) => return TokenLike::Id(TokenId(id as u16)),
            None => {},
        }
        match address {
            Some(a) => TokenLike::Address(Address(a)),
            None => TokenLike::Symbol(value.to_owned()),
        }
    }

    /// Reads a token descriptor: a decimal id, else a hex address (with or
    /// without `0x`), else a symbol.
    pub fn parse(value: &str) -> (r: TokenLike)
        ensures
            decimal_value(value.spec_bytes(), 65535) matches Some(v) ==> r == TokenLike::Id(TokenId(v as u16)),
            decimal_value(value.spec_bytes(), 65535) is None && hex_address(without_hex_prefix(value.spec_bytes())) is Some
                ==> (r matches TokenLike::Address(a) && hex_address(without_hex_prefix(value.spec_bytes())) == Some(a@)),
            decimal_value(value.spec_bytes(), 65535) is None && hex_address(without_hex_prefix(value.spec_bytes())) is None
                ==> (r matches TokenLike::Symbol(s) && s@ == value@),
    {
        let bytes = value.as_bytes();
        let unprefixed = if bytes.len() >= 2 && bytes[0] == 48 && bytes[1] == 120 && value.is_char_boundary(2) {
            let (_, rest) = value.split_at(2);
            rest
        } else {
            value
        };
        assert(unprefixed.spec_bytes() =~= without_hex_prefix(value.spec_bytes()));
        let address = parse_hex_address(unprefixed);
        Self::parse_with_address(value, address)
    }

    /// Whether the descriptor names the native coin: symbol `ATP`, the zero
    /// address, or id zero.
    pub fn is_atp(&self) -> (r: bool)
        ensures
            r == match *self {
                TokenLike::Symbol(s) => s@ == "ATP"@,
                TokenLike::Address(a) => a@ == Seq::new(20, |i: int| 0u8),
                TokenLike::Id(id) => id.0 == 0,
            },
    {
        match self {
            TokenLike::Symbol(symbol) => {
                let atp = "ATP".to_owned();
                *symbol == atp
            },
            TokenLike::Address(address) => address.is_zero(),
            TokenLike::Id(id) => id.0 == 0,
        }
    }
}

/// A token the network supports.
#[derive(Clone, Debug, PartialEq)]
pub struct Token {
    pub id: TokenId,
    /// Contract address of the token; zero for the native coin.
    pub address: Address,
    pub symbol: String,
    /// Decimal places of one whole token.
    pub decimals: u8,
}

impl Token {
    pub fn new(id: TokenId, address: Address, symbol: &str, decimals: u8) -> (r: Token)
        ensures
            r.id == id,
            r.address == address,
            r.symbol@ == symbol@,
            r.decimals == decimals,
    {
        Token { id, address, symbol: symbol.to_owned(), decimals }
    }
}

/// A token registered when the contract is deployed.
#[derive(Clone, Debug)]
pub struct TokenGenesisListItem {
    /// Address, with `0x`.
    pub address: String,
    pub decimals: u8,
    pub symbol: String,
}

/// How a key change was authorised, for fee purposes.
#[derive(Clone, Copy, Debug, PartialEq, Eq, Hash)]
pub enum ChangePubKeyFeeType {
    Onchain,
    ECDSA,
    CREATE2,
}

/// Fee kind of a key change, in the older and the newer contract form.
#[derive(Clone, Copy, Debug, PartialEq, Eq, Hash)]
pub enum ChangePubKeyFeeTypeArg {
    PreContracts4Version { onchain_pubkey_auth: bool },
    ContractsV4Version(ChangePubKeyFeeType),
}

/// Kinds of transaction fees.
#[derive(Clone, Copy, Debug, PartialEq, Eq, Hash)]
pub enum TxFeeTypes {
    /// Fee of a withdrawal or forced exit.
    Withdraw,
    /// Fee of a withdrawal processed without waiting.
    FastWithdraw,
    Transfer,
    ChangePubKey(ChangePubKeyFeeTypeArg),
}

} // verus!
