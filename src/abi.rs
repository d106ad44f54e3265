//! Encoding of calls to the remote contract: a four-byte selector followed by
//! one 32-byte word for each (static) argument.
use vstd::prelude::*;

use crate::error::ContractError;

verus! {

/// Type of one parameter of a remote function.
#[derive(Clone, Copy, Debug, PartialEq, Eq, Structural)]
pub enum ParamKind {
    /// `bytes32`
    FixedBytes32,
    /// `address`
    Address,
    /// `uint256`
    Uint256,
}

/// The value of one argument of a remote call.
pub enum AbiValue {
    FixedBytes(Seq<u8>),
    Address(Seq<u8>),
    Uint(u128),
}

/// One argument of a remote call.
#[derive(Clone, Debug)]
pub enum AbiArg {
    /// At most 32 bytes, padded on the right with zeros.
    FixedBytes(Vec<u8>),
    /// A 20-byte address, padded on the left with zeros.
    Address([u8; 20]),
    /// An unsigned integer, written big-endian in 32 bytes.
    Uint(u128),
}

/// The functions of the remote contract that this bridge calls.
#[derive(Clone, Copy, Debug, PartialEq, Eq, Structural)]
pub enum RemoteFunction {
    /// `withdraw(bytes32 sender, address recipient, uint256 amount, uint256 nonce)`
    Withdraw,
    /// `set_paloma()`
    SetPaloma,
    /// `update_compass(address new_compass)`
    UpdateCompass,
    /// `update_refund_wallet(address new_refund_wallet)`
    UpdateRefundWallet,
    /// `update_redemption_fee(uint256 new_redemption_fee)`
    UpdateRedemptionFee,
}

impl RemoteFunction {
    pub open spec fn spec_name(self) -> Seq<char> {
        match self {
            RemoteFunction::Withdraw => "withdraw"@,
            RemoteFunction::SetPaloma => "set_paloma"@,
            RemoteFunction::UpdateCompass => "update_compass"@,
            RemoteFunction::UpdateRefundWallet => "update_refund_wallet"@,
            RemoteFunction::UpdateRedemptionFee => "update_redemption_fee"@,
        }
    }

    pub open spec fn spec_params(self) -> Seq<ParamKind> {
        match self {
            RemoteFunction::Withdraw => seq![
                ParamKind::FixedBytes32,
                ParamKind::Address,
                ParamKind::Uint256,
                ParamKind::Uint256,
            ],
            RemoteFunction::SetPaloma => seq![],
            RemoteFunction::UpdateCompass => seq![ParamKind::Address],
            RemoteFunction::UpdateRefundWallet => seq![ParamKind::Address],
            RemoteFunction::UpdateRedemptionFee => seq![ParamKind::Uint256],
        }
    }

    /// The function's name in the remote contract.
    pub fn name(&self) -> (r: &'static str)
        ensures
            r@ == self.spec_name(),
    {
        match self {
            RemoteFunction::Withdraw => "withdraw",
            RemoteFunction::SetPaloma => "set_paloma",
            RemoteFunction::UpdateCompass => "update_compass",
            RemoteFunction::UpdateRefundWallet => "update_refund_wallet",
            RemoteFunction::UpdateRedemptionFee => "update_redemption_fee",
        }
    }

    /// The types of the function's parameters, in order.
    pub fn params(&self) -> (r: Vec<ParamKind>)
        ensures
            r@ == self.spec_params(),
    {
        match self {
            RemoteFunction::Withdraw => vec![
                ParamKind::FixedBytes32,
                ParamKind::Address,
                ParamKind::Uint256,
                ParamKind::Uint256,
            ],
            RemoteFunction::SetPaloma => Vec::new(),
            RemoteFunction::UpdateCompass => vec![ParamKind::Address],
            RemoteFunction::UpdateRefundWallet => vec![ParamKind::Address],
            RemoteFunction::UpdateRedemptionFee => vec![ParamKind::Uint256],
        }
    }
}

/// The functions in the order in which a selector is looked up.
pub open spec fn remote_functions() -> Seq<RemoteFunction> {
    seq![
        RemoteFunction::Withdraw,
        RemoteFunction::SetPaloma,
        RemoteFunction::UpdateCompass,
        RemoteFunction::UpdateRefundWallet,
        RemoteFunction::UpdateRedemptionFee,
    ]
}

/// The four-byte selector of a function with this name and these parameter types.
pub uninterp spec fn short_signature_of(name: Seq<char>, params: Seq<ParamKind>) -> Seq<u8>;

pub open spec fn selector(f: RemoteFunction) -> Seq<u8> {
    short_signature_of(f.spec_name(), f.spec_params())
}

/// Every selector is four bytes long, and no two remote functions share one.
pub open spec fn selectors_distinct() -> bool {
    &&& forall|f: RemoteFunction| #[trigger] selector(f).len() == 4
    &&& forall|f: RemoteFunction, g: RemoteFunction| f != g ==> selector(f) != selector(g)
}

/// `k` zero bytes.
pub open spec fn zeros(k: nat) -> Seq<u8> {
    Seq::new(k, |i: int| 0u8)
}

pub open spec fn pow256(k: nat) -> nat
    decreases k,
{
    if k == 0 {
        1
    } else {
        256 * pow256((k - 1) as nat)
    }
}

/// `n` as 32 bytes, most significant first.
pub open spec fn be_word(n: u128) -> Seq<u8> {
    Seq::new(32, |i: int| ((n as nat / pow256((31 - i) as nat)) % 256) as u8)
}

pub open spec fn abi_value(a: AbiArg) -> AbiValue {
    match a {
        AbiArg::FixedBytes(b) => AbiValue::FixedBytes(b@),
        AbiArg::Address(a) => AbiValue::Address(a@),
        AbiArg::Uint(n) => AbiValue::Uint(n),
    }
}

/// At most 32 bytes padded on the right to a word; no bytes give no word.
pub open spec fn fixed_bytes_word(b: Seq<u8>) -> Seq<u8> {
    if b.len() == 0 {
        Seq::empty()
    } else {
        b + zeros((32 - b.len()) as nat)
    }
}

/// A 20-byte address padded on the left to a word.
pub open spec fn address_word(a: Seq<u8>) -> Seq<u8> {
    zeros(12) + a
}

/// The word (or, for empty fixed bytes, nothing) that an argument encodes to.
pub open spec fn word_of(a: AbiArg) -> Seq<u8> {
    value_word(abi_value(a))
}

pub open spec fn value_word(v: AbiValue) -> Seq<u8> {
    match v {
        AbiValue::FixedBytes(b) => fixed_bytes_word(b),
        AbiValue::Address(a) => address_word(a),
        AbiValue::Uint(n) => be_word(n),
    }
}

/// The payload of `withdraw(sender, recipient, amount, nonce)`.
pub open spec fn withdraw_call(sender: Seq<u8>, recipient: Seq<u8>, amount: u128, nonce: u64) -> Seq<u8> {
    selector(RemoteFunction::Withdraw) + fixed_bytes_word(sender) + address_word(recipient) + be_word(
        amount,
    ) + be_word(nonce as u128)
}

/// The words of the arguments, concatenated in order.
pub open spec fn words_of(args: Seq<AbiArg>) -> Seq<u8>
    decreases args.len(),
{
    if args.len() == 0 {
        Seq::empty()
    } else {
        words_of(args.drop_last()) + word_of(args.last())
    }
}

pub open spec fn arg_fits(k: ParamKind, a: AbiArg) -> bool {
    match (k, a) {
        (ParamKind::FixedBytes32, AbiArg::FixedBytes(b)) => b@.len() <= 32,
        (ParamKind::Address, AbiArg::Address(_)) => true,
        (ParamKind::Uint256, AbiArg::Uint(_)) => true,
        _ => false,
    }
}

/// The arguments match the parameter types one for one.
pub open spec fn args_fit(params: Seq<ParamKind>, args: Seq<AbiArg>) -> bool {
    &&& params.len() == args.len()
    &&& forall|i: int| 0 <= i < args.len() ==> #[trigger] arg_fits(params[i], args[i])
}

/// The payload that calls `f` with `args`.
pub open spec fn call_data(f: RemoteFunction, args: Seq<AbiArg>) -> Seq<u8> {
    selector(f) + words_of(args)
}

/// The function whose selector opens `payload`, the first in lookup order.
pub open spec fn function_of_payload(payload: Seq<u8>) -> Option<RemoteFunction> {
    if payload.len() < 4 {
        None
    } else {
        let prefix = payload.subrange(0, 4);
        if exists|i: int| 0 <= i < 5 && selector(remote_functions()[i]) == prefix {
            let i = choose|i: int|
                0 <= i < 5 && selector(remote_functions()[i]) == prefix && forall|j: int|
                    0 <= j < i ==> selector(remote_functions()[j]) != prefix;
            Some(remote_functions()[i])
        } else {
            None
        }
    }
}

pub open spec fn is_hex_digit(c: char) -> bool {
    ('0' <= c && c <= '9') || ('a' <= c && c <= 'f') || ('A' <= c && c <= 'F')
}

pub open spec fn hex_value(c: char) -> int {
    if '0' <= c && c <= '9' {
        c as int - '0' as int
    } else if 'a' <= c && c <= 'f' {
        c as int - 'a' as int + 10
    } else {
        c as int - 'A' as int + 10
    }
}

/// The characters that address text may hold between its digits.
pub open spec fn is_hex_space(c: char) -> bool {
    c == ' ' || c == '\t' || c == '\n' || c == '\r'
}

/// The digits of address text: one leading `0x` dropped, then the spaces.
pub open spec fn address_digits(s: Seq<char>) -> Seq<char> {
    let body = if s.len() >= 2 && s[0] == '0' && s[1] == 'x' {
        s.subrange(2, s.len() as int)
    } else {
        s
    };
    body.filter(|c: char| !is_hex_space(c))
}

/// The 20 bytes that address text stands for, if it is forty hex digits.
pub open spec fn address_of_text(s: Seq<char>) -> Option<Seq<u8>> {
    let d = address_digits(s);
    if d.len() == 40 && forall|i: int| 0 <= i < 40 ==> is_hex_digit(#[trigger] d[i]) {
        Some(Seq::new(20, |i: int| (hex_value(d[2 * i]) * 16 + hex_value(d[2 * i + 1])) as u8))
    } else {
        None
    }
}

/// Relies on ethabi::short_signature: the first four bytes of the Keccak-256
/// hash of `name(types)`, which depend on the name and the types alone.
#[verifier::external_body]
fn short_signature(name: &str, params: &Vec<ParamKind>) -> (r: [u8; 4])
    ensures
        r@ == short_signature_of(name@, params@),
{
    let kinds: Vec<ethabi::ParamType> = params.iter().map(|k| match k {
        ParamKind::FixedBytes32 => ethabi::ParamType::FixedBytes(32),
        ParamKind::Address => ethabi::ParamType::Address,
        ParamKind::Uint256 => ethabi::ParamType::Uint(256),
    }).collect();
    ethabi::short_signature(name, &kinds)
}

/// Relies on ethabi::encode: an address is left-padded to a word, an unsigned
/// integer written big-endian in a word, and fixed bytes right-padded to whole
/// words (none for no bytes); the words follow one another in argument order.
#[verifier::external_body]
fn encode_words(args: &Vec<AbiArg>) -> (r: Vec<u8>)
    requires
        forall|i: int| 0 <= i < args.len() ==> (#[trigger] args[i] matches AbiArg::FixedBytes(b)
            ==> b@.len() <= 32),
    ensures
        r@ == words_of(args@),
{
    let tokens: Vec<ethabi::Token> = args.iter().map(|a| match a {
        AbiArg::FixedBytes(b) => ethabi::Token::FixedBytes(b.clone()),
        AbiArg::Address(b) => ethabi::Token::Address(ethabi::Address::from(*b)),
        AbiArg::Uint(n) => ethabi::Token::Uint(ethabi::Uint::from(*n)),
    }).collect();
    ethabi::encode(&tokens)
}

/// Relies on `FromStr` of ethabi::Address (fixed-hash's `H160`): one leading
/// `0x` is dropped, ASCII spaces, tabs and line breaks are skipped, and exactly
/// forty hex digits must remain, read two to a byte, high nibble first.
#[verifier::external_body]
fn parse_address(s: &str) -> (r: Option<[u8; 20]>)
    ensures
        r is Some <==> address_of_text(s@) is Some,
        r matches Some(a) ==> a@ == address_of_text(s@)->0,
{
    <ethabi::Address as std::str::FromStr>::from_str(s).ok().map(|a| a.0)
}

/// Reads address text such as `0x` followed by forty hex digits.
pub fn address_from_text(s: &String) -> (r: Result<[u8; 20], ContractError>)
    ensures
        r is Ok <==> address_of_text(s@) is Some,
        r matches Ok(a) ==> a@ == address_of_text(s@)->0,
        r matches Err(e) ==> e == ContractError::InvalidAddress,
{
    match parse_address(s.as_str()) {
        Some(a) => Ok(a),
        None => Err(ContractError::InvalidAddress),
    }
}

fn arg_fits_exec(k: ParamKind, a: &AbiArg) -> (r: bool)
    ensures
        r == arg_fits(k, *a),
{
    match (k, a) {
        (ParamKind::FixedBytes32, AbiArg::FixedBytes(b)) => b.len() <= 32,
        (ParamKind::Address, AbiArg::Address(_)) => true,
        (ParamKind::Uint256, AbiArg::Uint(_)) => true,
        _ => false,
    }
}

/// The payload that calls `f` with `args`: the selector, then one word per
/// argument. Fails exactly when the arguments do not fit `f`'s parameters.
pub fn encode_input(f: RemoteFunction, args: &Vec<AbiArg>) -> (r: Result<Vec<u8>, ContractError>)
    ensures
        r is Ok <==> args_fit(f.spec_params(), args@),
        r matches Ok(b) ==> b@ == call_data(f, args@),
        r matches Err(e) ==> e == ContractError::EncodingMismatch,
{
    let params = f.params();
    if params.len() != args.len() {
        return Err(ContractError::EncodingMismatch);
    }
    let mut i: usize = 0;
    while i < args.len()
        invariant
            params@ == f.spec_params(),
            params.len() == args.len(),
            0 <= i <= args.len(),
            forall|j: int| 0 <= j < i ==> #[trigger] arg_fits(params@[j], args@[j]),
        decreases args.len() - i,
    {
        if !arg_fits_exec(params[i], &args[i]) {
            return Err(ContractError::EncodingMismatch);
        }
        i = i + 1;
    }
    assert forall|i: int| 0 <= i < args.len() implies (#[trigger] args[i] matches AbiArg::FixedBytes(
        b,
    ) ==> b@.len() <= 32) by {
        assert(arg_fits(params@[i], args@[i]));
    }
    let sel = short_signature(f.name(), &params);
    let words = encode_words(args);
    let mut out: Vec<u8> = Vec::new();
    let mut k: usize = 0;
    while k < 4
        invariant
            0 <= k <= 4,
            sel@.len() == 4,
            out@ == sel@.subrange(0, k as int),
        decreases 4 - k,
    {
        out.push(sel[k]);
        k = k + 1;
    }
    let mut j: usize = 0;
    while j < words.len()
        invariant
            0 <= j <= words.len(),
            sel@.len() == 4,
            out@ == sel@ + words@.subrange(0, j as int),
        decreases words.len() - j,
    {
        out.push(words[j]);
        j = j + 1;
    }
    assert(words@.subrange(0, words.len() as int) == words@);
    assert(sel@.subrange(0, 4) == sel@);
    Ok(out)
}

/// The payload of `withdraw(sender, recipient, amount, nonce)`; fails exactly
/// when `sender` is longer than 32 bytes.
pub fn encode_withdraw(sender: &Vec<u8>, recipient: [u8; 20], amount: u128, nonce: u64) -> (r: Result<
    Vec<u8>,
    ContractError,
>)
    ensures
        r is Ok <==> sender@.len() <= 32,
        r matches Ok(b) ==> b@ == withdraw_call(sender@, recipient@, amount, nonce),
        r matches Err(e) ==> e == ContractError::EncodingMismatch,
{
    let args: Vec<AbiArg> = vec![
        AbiArg::FixedBytes(sender.clone()),
        AbiArg::Address(recipient),
        AbiArg::Uint(amount),
        AbiArg::Uint(nonce as u128),
    ];
    let r = encode_input(RemoteFunction::Withdraw, &args);
    proof {
        let a = args@;
        assert(args_fit(RemoteFunction::Withdraw.spec_params(), a) <==> sender@.len() <= 32) by {
            if sender@.len() <= 32 {
                assert forall|i: int| 0 <= i < a.len() implies #[trigger] arg_fits(
                    RemoteFunction::Withdraw.spec_params()[i],
                    a[i],
                ) by {}
            } else {
                assert(!arg_fits(RemoteFunction::Withdraw.spec_params()[0], a[0]));
            }
        }
        reveal_with_fuel(words_of, 5);
        assert(a.drop_last().drop_last().drop_last().drop_last() =~= Seq::<AbiArg>::empty());
        assert(words_of(a) =~= fixed_bytes_word(sender@) + address_word(recipient@) + be_word(amount)
            + be_word(nonce as u128));
        assert(call_data(RemoteFunction::Withdraw, a) =~= withdraw_call(sender@, recipient@, amount, nonce));
    }
    r
}

/// The payload that calls `f`, a function of one address parameter, with `a`.
pub fn encode_address_call(f: RemoteFunction, a: [u8; 20]) -> (r: Vec<u8>)
    requires
        f.spec_params() == seq![ParamKind::Address],
    ensures
        r@ == selector(f) + address_word(a@),
{
    let args: Vec<AbiArg> = vec![AbiArg::Address(a)];
    let r = encode_input(f, &args);
    proof {
        assert(arg_fits(f.spec_params()[0], args@[0]));
        reveal_with_fuel(words_of, 2);
        assert(args@.drop_last() =~= Seq::<AbiArg>::empty());
        assert(words_of(args@) =~= address_word(a@));
    }
    r.unwrap()
}

/// The payload that calls `f`, a function of one `uint256` parameter, with `n`.
pub fn encode_uint_call(f: RemoteFunction, n: u128) -> (r: Vec<u8>)
    requires
        f.spec_params() == seq![ParamKind::Uint256],
    ensures
        r@ == selector(f) + be_word(n),
{
    let args: Vec<AbiArg> = vec![AbiArg::Uint(n)];
    let r = encode_input(f, &args);
    proof {
        assert(arg_fits(f.spec_params()[0], args@[0]));
        reveal_with_fuel(words_of, 2);
        assert(args@.drop_last() =~= Seq::<AbiArg>::empty());
        assert(words_of(args@) =~= be_word(n));
    }
    r.unwrap()
}

/// The payload that calls `f`, a function without parameters.
pub fn encode_call(f: RemoteFunction) -> (r: Vec<u8>)
    requires
        f.spec_params() == Seq::<ParamKind>::empty(),
    ensures
        r@ == selector(f),
{
    let args: Vec<AbiArg> = Vec::new();
    let r = encode_input(f, &args);
    proof {
        assert(words_of(args@) =~= Seq::<u8>::empty());
        assert(selector(f) + Seq::<u8>::empty() =~= selector(f));
    }
    r.unwrap()
}

/// The remote function whose selector opens `payload`, if any.
pub fn function_of(payload: &Vec<u8>) -> (r: Option<RemoteFunction>)
    ensures
        r == function_of_payload(payload@),
{
    if payload.len() < 4 {
        return None;
    }
    let fs: Vec<RemoteFunction> = vec![
        RemoteFunction::Withdraw,
        RemoteFunction::SetPaloma,
        RemoteFunction::UpdateCompass,
        RemoteFunction::UpdateRefundWallet,
        RemoteFunction::UpdateRedemptionFee,
    ];
    assert(fs@ == remote_functions());
    let ghost prefix = payload@.subrange(0, 4);
    let mut i: usize = 0;
    while i < fs.len()
        invariant
            fs@ == remote_functions(),
            payload@.len() >= 4,
            prefix == payload@.subrange(0, 4),
            0 <= i <= 5,
            forall|j: int| 0 <= j < i ==> selector(remote_functions()[j]) != prefix,
        decreases fs.len() - i,
    {
        let f = fs[i];
        let sel = short_signature(f.name(), &f.params());
        let mut same = true;
        let mut k: usize = 0;
        while k < 4
            invariant
                0 <= k <= 4,
                sel@.len() == 4,
                payload@.len() >= 4,
                same <==> (forall|m: int| 0 <= m < k ==> sel@[m] == payload@[m]),
            decreases 4 - k,
        {
            if sel[k] != payload[k] {
                same = false;
            }
            k = k + 1;
        }
        if same {
            assert(sel@ =~= prefix);
            assert(selector(remote_functions()[i as int]) == prefix);
            return Some(f);
        }
        assert(sel@[0] != prefix[0] || sel@[1] != prefix[1] || sel@[2] != prefix[2] || sel@[3]
            != prefix[3]);
        i = i + 1;
    }
    None
}

} // verus!
