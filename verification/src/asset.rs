//! Assets: what a request can hold in escrow and what fees and stakes are
//! paid in. An asset is either a native coin, named by its denomination, or a
//! token kept by a token contract, named by that contract's address.

use vstd::prelude::*;
use vstd::string::{StrSliceExecFns, StringExecFns};
use crate::error::{StdError, StdErrorView};
use crate::msg::{CosmosMsg, CosmosMsgView, MessageInfo};
use crate::text::{lowercase_of, starts_with, to_lowercase, to_uppercase, uppercase_of};

verus! {

/// Which asset: a token contract or a native denomination.
#[derive(Clone, Debug, PartialEq, Eq)]
pub enum AssetInfo {
    /// A token kept by the contract at `contract_addr`.
    Token { contract_addr: String },
    /// A native coin of denomination `denom`.
    NativeToken { denom: String },
}

/// The mathematical value of an [`AssetInfo`].
pub enum AssetInfoView {
    Token { contract_addr: Seq<char> },
    NativeToken { denom: Seq<char> },
}

impl View for AssetInfo {
    type V = AssetInfoView;

    open spec fn view(&self) -> AssetInfoView {
        match self {
            AssetInfo::Token { contract_addr } => AssetInfoView::Token {
                contract_addr: contract_addr@,
            },
            AssetInfo::NativeToken { denom } => AssetInfoView::NativeToken { denom: denom@ },
        }
    }
}

/// An amount of some asset.
#[derive(Clone, Debug, PartialEq, Eq)]
pub struct Asset {
    pub info: AssetInfo,
    pub amount: u128,
}

/// The mathematical value of an [`Asset`].
pub struct AssetView {
    pub info: AssetInfoView,
    pub amount: nat,
}

impl View for Asset {
    type V = AssetView;

    open spec fn view(&self) -> AssetView {
        AssetView { info: self.info@, amount: self.amount as nat }
    }
}

/// An amount of a native coin, as it arrives with a call.
#[derive(Clone, Debug, PartialEq, Eq)]
pub struct Coin {
    pub denom: String,
    pub amount: u128,
}

/// The mathematical value of a [`Coin`].
pub struct CoinView {
    pub denom: Seq<char>,
    pub amount: nat,
}

impl View for Coin {
    type V = CoinView;

    open spec fn view(&self) -> CoinView {
        CoinView { denom: self.denom@, amount: self.amount as nat }
    }
}

/// The values of a list of coins, in order.
pub open spec fn coins_view(coins: Seq<Coin>) -> Seq<CoinView> {
    coins.map_values(|c: Coin| c@)
}

/// The value of an optional asset.
pub open spec fn optional_asset_view(asset: Option<Asset>) -> Option<AssetView> {
    match asset {
        Some(a) => Some(a@),
        None => None,
    }
}

/// The position of the first coin of denomination `denom`, if there is one.
pub open spec fn first_of_denom(coins: Seq<CoinView>, denom: Seq<char>) -> Option<int>
    decreases coins.len(),
{
    if coins.len() == 0 {
        None
    } else if coins.first().denom == denom {
        Some(0int)
    } else {
        match first_of_denom(coins.drop_first(), denom) {
            Some(i) => Some(i + 1),
            None => None,
        }
    }
}

/// What `first_of_denom` finds is in range, has the denomination asked for,
/// and is the first such coin; it finds nothing only where no coin has it.
pub proof fn lemma_first_of_denom(coins: Seq<CoinView>, denom: Seq<char>)
    ensures
        match first_of_denom(coins, denom) {
            Some(i) => 0 <= i < coins.len() && coins[i].denom == denom && forall|j: int|
                0 <= j < i ==> coins[j].denom != denom,
            None => forall|j: int| 0 <= j < coins.len() ==> coins[j].denom != denom,
        },
    decreases coins.len(),
{
    if coins.len() == 0 {
    } else if coins.first().denom == denom {
    } else {
        let rest = coins.drop_first();
        lemma_first_of_denom(rest, denom);
        match first_of_denom(rest, denom) {
            Some(i) => {
                assert forall|j: int| 0 <= j < i + 1 implies coins[j].denom != denom by {
                    if j > 0 {
                        assert(coins[j] == rest[j - 1]);
                    }
                }
                assert(coins[i + 1] == rest[i]);
            },
            None => {
                assert forall|j: int| 0 <= j < coins.len() implies coins[j].denom != denom by {
                    if j > 0 {
                        assert(coins[j] == rest[j - 1]);
                    }
                }
            },
        }
    }
}

/// Finds the first coin of denomination `denom` among `coins`.
pub fn find_denom(coins: &Vec<Coin>, denom: &String) -> (found: Option<usize>)
    ensures
        match found {
            Some(i) => first_of_denom(coins_view(coins@), denom@) == Some(i as int) && i < coins.len(),
            None => first_of_denom(coins_view(coins@), denom@) is None,
        },
{
    let ghost all = coins_view(coins@);
    let mut i: usize = 0;
    while i < coins.len()
        invariant
            i <= coins.len(),
            all == coins_view(coins@),
            forall|j: int| 0 <= j < i ==> all[j].denom != denom@,
        decreases coins.len() - i,
    {
        if coins[i].denom == *denom {
            proof {
                lemma_first_of_denom(all, denom@);
                assert(all[i as int].denom == denom@);
            }
            return Some(i);
        }
        i = i + 1;
    }
    proof {
        lemma_first_of_denom(all, denom@);
    }
    None
}

/// Why an asset is not well named, where `lowered` is the lower-case form of
/// its name: nothing where it is well named.
pub open spec fn check_failure(info: AssetInfoView, lowered: Seq<char>) -> Option<StdErrorView> {
    match info {
        AssetInfoView::Token { contract_addr } => if lowered != contract_addr {
            Some(
                StdErrorView::GenericErr {
                    msg: "Address "@ + contract_addr + " should be lowercase"@,
                },
            )
        } else {
            None
        },
        AssetInfoView::NativeToken { denom } => if !"ibc/"@.is_prefix_of(denom) && denom != lowered {
            Some(
                StdErrorView::GenericErr {
                    msg: "Non-IBC token denom "@ + denom + " should be lowercase"@,
                },
            )
        } else {
            None
        },
    }
}

impl AssetInfo {
    /// Whether this is a native coin.
    pub fn is_native_token(&self) -> (native: bool)
        ensures
            native == (self@ is NativeToken),
    {
        match self {
            AssetInfo::NativeToken { .. } => true,
            AssetInfo::Token { .. } => false,
        }
    }

    /// Whether `self` and `asset` name the same asset: the same kind, and the
    /// same denomination or contract address.
    pub fn equal(&self, asset: &AssetInfo) -> (same: bool)
        ensures
            same == (self@ == asset@),
    {
        match (self, asset) {
            (AssetInfo::Token { contract_addr: mine }, AssetInfo::Token { contract_addr: theirs }) => {
                *mine == *theirs
            },
            (AssetInfo::NativeToken { denom: mine }, AssetInfo::NativeToken { denom: theirs }) => {
                *mine == *theirs
            },
            _ => false,
        }
    }

    /// The name of the asset, whichever kind it is: the denomination of a
    /// native coin, the contract address of a token.
    pub open spec fn name(self) -> Seq<char> {
        match self@ {
            AssetInfoView::NativeToken { denom } => denom,
            AssetInfoView::Token { contract_addr } => contract_addr,
        }
    }

    /// The bytes of the asset's name.
    pub fn as_bytes(&self) -> (bytes: &[u8])
        ensures
            bytes@ == vstd::utf8::encode_utf8(self.name()),
    {
        match self {
            AssetInfo::NativeToken { denom } => denom.as_str().as_bytes(),
            AssetInfo::Token { contract_addr } => contract_addr.as_str().as_bytes(),
        }
    }

    /// The asset's name as text.
    pub fn to_string(&self) -> (text: String)
        ensures
            text@ == self.name(),
    {
        match self {
            AssetInfo::NativeToken { denom } => denom.clone(),
            AssetInfo::Token { contract_addr } => contract_addr.clone(),
        }
    }

    /// Checks the asset's name against its lower-case form `lowered`.
    pub fn check_with(&self, lowered: &String) -> (checked: Result<(), StdError>)
        ensures
            match checked {
                Ok(_) => check_failure(self@, lowered@) is None,
                Err(e) => check_failure(self@, lowered@) == Some(e@),
            },
    {
        match self {
            AssetInfo::Token { contract_addr } => {
                if *lowered != *contract_addr {
                    let mut msg = String::from_str("Address ");
                    msg.append(contract_addr.as_str());
                    msg.append(" should be lowercase");
                    return Err(StdError::GenericErr { msg });
                }
            },
            AssetInfo::NativeToken { denom } => {
                if !starts_with(denom, "ibc/") && *denom != *lowered {
                    let mut msg = String::from_str("Non-IBC token denom ");
                    msg.append(denom.as_str());
                    msg.append(" should be lowercase");
                    return Err(StdError::GenericErr { msg });
                }
            },
        }
        Ok(())
    }

    /// Checks that the asset is well named: the address of a token contract
    /// is in lower case, and so is a denomination, unless it starts with
    /// `ibc/`.
    pub fn check(&self) -> (checked: Result<(), StdError>)
        ensures
            match checked {
                Ok(_) => check_failure(self@, lowercase_of(self.name())) is None,
                Err(e) => check_failure(self@, lowercase_of(self.name())) == Some(e@),
            },
    {
        let lowered = match self {
            AssetInfo::Token { contract_addr } => to_lowercase(contract_addr),
            AssetInfo::NativeToken { denom } => to_lowercase(denom),
        };
        self.check_with(&lowered)
    }

    /// A copy of this value.
    pub fn duplicate(&self) -> (copy: AssetInfo)
        ensures
            copy@ == self@,
    {
        match self {
            AssetInfo::NativeToken { denom } => AssetInfo::NativeToken { denom: denom.clone() },
            AssetInfo::Token { contract_addr } => AssetInfo::Token {
                contract_addr: contract_addr.clone(),
            },
        }
    }
}

/// The instruction that moves an asset out of the registry's custody to
/// `recipient`: a send of native coins, or a transfer by the token contract.
pub open spec fn transfer_of(asset: AssetView, recipient: Seq<char>) -> CosmosMsgView {
    match asset.info {
        AssetInfoView::Token { contract_addr } => CosmosMsgView::Transfer {
            contract_addr,
            recipient,
            amount: asset.amount,
        },
        AssetInfoView::NativeToken { denom } => CosmosMsgView::Send {
            to_address: recipient,
            denom,
            amount: asset.amount,
        },
    }
}

/// The character of a decimal digit.
pub open spec fn digit(d: nat) -> char {
    if d == 0 {
        '0'
    } else if d == 1 {
        '1'
    } else if d == 2 {
        '2'
    } else if d == 3 {
        '3'
    } else if d == 4 {
        '4'
    } else if d == 5 {
        '5'
    } else if d == 6 {
        '6'
    } else if d == 7 {
        '7'
    } else if d == 8 {
        '8'
    } else {
        '9'
    }
}

/// A number in decimal digits, without leading zeros.
pub open spec fn decimal(n: nat) -> Seq<char>
    decreases n,
{
    if n < 10 {
        seq![digit(n)]
    } else {
        decimal(n / 10).push(digit(n % 10))
    }
}

/// The text of a decimal digit.
fn digit_text(d: u128) -> (text: &'static str)
    requires
        d < 10,
    ensures
        text@ == seq![digit(d as nat)],
{
    proof {
        reveal_strlit("0");
        reveal_strlit("1");
        reveal_strlit("2");
        reveal_strlit("3");
        reveal_strlit("4");
        reveal_strlit("5");
        reveal_strlit("6");
        reveal_strlit("7");
        reveal_strlit("8");
        reveal_strlit("9");
    }
    let text = if d == 0 {
        "0"
    } else if d == 1 {
        "1"
    } else if d == 2 {
        "2"
    } else if d == 3 {
        "3"
    } else if d == 4 {
        "4"
    } else if d == 5 {
        "5"
    } else if d == 6 {
        "6"
    } else if d == 7 {
        "7"
    } else if d == 8 {
        "8"
    } else {
        "9"
    };
    assert(text@ =~= seq![digit(d as nat)]);
    text
}

/// Writes `n` in decimal digits behind `text`.
fn write_decimal(text: &mut String, n: u128)
    ensures
        final(text)@ == old(text)@ + decimal(n as nat),
    decreases n,
{
    if n >= 10 {
        write_decimal(text, n / 10);
    }
    text.append(digit_text(n % 10));
    assert(text@ =~= old(text)@ + decimal(n as nat));
}

/// A number in decimal digits.
pub fn decimal_text(n: u128) -> (text: String)
    ensures
        text@ == decimal(n as nat),
{
    let mut text = String::new();
    write_decimal(&mut text, n);
    assert(text@ =~= decimal(n as nat));
    text
}

/// The message of the error for coins that do not match an asset.
pub open spec fn mismatch_message() -> Seq<char> {
    "Native token balance mismatch between the argument and the transferred"@
}

/// Whether the coins sent match a native asset: the first coin of the
/// asset's denomination holds exactly the asset's amount, or there is no
/// such coin and the amount is zero. A token matches whatever is sent.
pub open spec fn sent_matches(asset: AssetView, funds: Seq<CoinView>) -> bool {
    match asset.info {
        AssetInfoView::NativeToken { denom } => match first_of_denom(funds, denom) {
            Some(i) => funds[i].amount == asset.amount,
            None => asset.amount == 0,
        },
        AssetInfoView::Token { .. } => true,
    }
}

impl Asset {
    /// The asset as text: the amount in decimal digits, then the asset's name.
    pub fn to_string(&self) -> (text: String)
        ensures
            text@ == decimal(self.amount as nat) + self.info.name(),
    {
        let mut text = decimal_text(self.amount);
        let name = self.info.to_string();
        text.append(name.as_str());
        text
    }

    /// Checks that the coins which came with a call match the asset.
    pub fn assert_sent_native_token_balance(&self, message_info: &MessageInfo) -> (checked: Result<
        (),
        StdError,
    >)
        ensures
            match checked {
                Ok(_) => sent_matches(self@, message_info@.funds),
                Err(e) => !sent_matches(self@, message_info@.funds) && e@ == (StdErrorView::GenericErr {
                    msg: mismatch_message(),
                }),
            },
    {
        let matches = match &self.info {
            AssetInfo::NativeToken { denom } => match find_denom(&message_info.funds, denom) {
                Some(i) => self.amount == message_info.funds[i].amount,
                None => self.amount == 0,
            },
            AssetInfo::Token { .. } => true,
        };
        if matches {
            Ok(())
        } else {
            Err(
                StdError::GenericErr {
                    msg: String::from_str(
                        "Native token balance mismatch between the argument and the transferred",
                    ),
                },
            )
        }
    }

    /// The instruction that moves the asset to `recipient`.
    pub fn into_msg(self, recipient: &String) -> (msg: CosmosMsg)
        ensures
            msg@ == transfer_of(self@, recipient@),
    {
        let amount = self.amount;
        match self.info {
            AssetInfo::Token { contract_addr } => CosmosMsg::Transfer {
                contract_addr,
                recipient: recipient.clone(),
                amount,
            },
            AssetInfo::NativeToken { denom } => CosmosMsg::Send {
                to_address: recipient.clone(),
                denom,
                amount,
            },
        }
    }

    /// Whether the asset is a native coin.
    pub fn is_native_token(&self) -> (native: bool)
        ensures
            native == (self@.info is NativeToken),
    {
        self.info.is_native_token()
    }

    /// A copy of this value.
    pub fn duplicate(&self) -> (copy: Asset)
        ensures
            copy@ == self@,
    {
        Asset { info: self.info.duplicate(), amount: self.amount }
    }
}

/// Checks that an address is in lower case, and returns it.
pub fn addr_validate_to_lower(addr: &String) -> (checked: Result<String, StdError>)
    ensures
        match checked {
            Ok(same) => same@ == addr@ && lowercase_of(addr@) == addr@,
            Err(e) => lowercase_of(addr@) != addr@ && e@ == (StdErrorView::GenericErr {
                msg: "Address "@ + addr@ + " should be lowercase"@,
            }),
        },
{
    let info = AssetInfo::Token { contract_addr: addr.clone() };
    match info.check() {
        Ok(_) => Ok(addr.clone()),
        Err(e) => Err(e),
    }
}

/// How many characters of a symbol go into the name of a pool's token.
pub const TOKEN_SYMBOL_MAX_LENGTH: usize = 4;

/// A symbol cut to the length that goes into the name of a pool's token.
pub open spec fn short_symbol(symbol: Seq<char>) -> Seq<char> {
    if symbol.len() <= TOKEN_SYMBOL_MAX_LENGTH {
        symbol
    } else {
        symbol.take(TOKEN_SYMBOL_MAX_LENGTH as int)
    }
}

/// The name of a pool's token before it is put in upper case: the two
/// symbols, cut short, and `LP`, with hyphens between them.
pub open spec fn lp_token_name(first: Seq<char>, second: Seq<char>) -> Seq<char> {
    short_symbol(first) + "-"@ + short_symbol(second) + "-LP"@
}

/// Writes a symbol, cut short, behind `text`.
fn write_short_symbol(text: &mut String, symbol: &String)
    ensures
        final(text)@ == old(text)@ + short_symbol(symbol@),
{
    let len = symbol.as_str().unicode_len();
    let cut = if len <= TOKEN_SYMBOL_MAX_LENGTH {
        len
    } else {
        TOKEN_SYMBOL_MAX_LENGTH
    };
    text.append(symbol.as_str().substring_char(0, cut));
    assert(symbol@.subrange(0, cut as int) =~= short_symbol(symbol@));
}

/// The name of the token of the pool of two assets, from the assets'
/// symbols: a native coin's symbol is its denomination, a token's is the one
/// that its contract tells.
pub fn format_lp_token_name(first: &String, second: &String) -> (name: String)
    ensures
        name@ == uppercase_of(lp_token_name(first@, second@)),
{
    let mut name = String::new();
    write_short_symbol(&mut name, first);
    name.append("-");
    write_short_symbol(&mut name, second);
    name.append("-LP");
    assert(name@ =~= lp_token_name(first@, second@));
    to_uppercase(&name)
}

/// An amount of the native coin `denom`.
pub fn native_asset(denom: String, amount: u128) -> (asset: Asset)
    ensures
        asset@ == (AssetView { info: AssetInfoView::NativeToken { denom: denom@ }, amount: amount as nat }),
{
    Asset { info: AssetInfo::NativeToken { denom }, amount }
}

/// An amount of the token kept at `contract_addr`.
pub fn token_asset(contract_addr: String, amount: u128) -> (asset: Asset)
    ensures
        asset@ == (AssetView {
            info: AssetInfoView::Token { contract_addr: contract_addr@ },
            amount: amount as nat,
        }),
{
    Asset { info: AssetInfo::Token { contract_addr }, amount }
}

/// The native coin of denomination `denom`.
pub fn native_asset_info(denom: String) -> (info: AssetInfo)
    ensures
        info@ == (AssetInfoView::NativeToken { denom: denom@ }),
{
    AssetInfo::NativeToken { denom }
}

/// The token kept at `contract_addr`.
pub fn token_asset_info(contract_addr: String) -> (info: AssetInfo)
    ensures
        info@ == (AssetInfoView::Token { contract_addr: contract_addr@ }),
{
    AssetInfo::Token { contract_addr }
}

} // verus!
