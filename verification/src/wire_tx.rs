//! Cosmos SDK transaction messages: `Any`, `TxBody`, `AuthInfo`,
//! `SignDoc` and `TxRaw`, with their deterministic encodings.
//!
//! Text fields (`type_url`, `memo`, `chain_id`, denominations, signer
//! addresses) are held as their UTF-8 bytes, which is what the wire
//! format carries.

use vstd::prelude::*;

use crate::encoding::{
    dec_bytes, enc_list, field_bytes, field_opt, field_u64, len_prefixed, put_bytes_field,
    put_len_prefixed, put_u64_field,
};

verus! {

/// A protobuf `Any`: a type URL and the encoded value it tags.
#[derive(Clone, Debug)]
pub struct Any {
    pub type_url: Vec<u8>,
    pub value: Vec<u8>,
}

pub ghost struct AnyV {
    pub type_url: Seq<u8>,
    pub value: Seq<u8>,
}

impl View for Any {
    type V = AnyV;

    open spec fn view(&self) -> AnyV {
        AnyV { type_url: self.type_url@, value: self.value@ }
    }
}

impl DeepView for Any {
    type V = AnyV;

    open spec fn deep_view(&self) -> AnyV {
        self@
    }
}

pub open spec fn spec_encode_any(m: AnyV) -> Seq<u8> {
    field_bytes(1, m.type_url) + field_bytes(2, m.value)
}

/// The element encoder of a repeated `Any` field.
pub open spec fn any_encoder() -> spec_fn(AnyV) -> Seq<u8> {
    |a: AnyV| spec_encode_any(a)
}

/// The element encoder of a repeated `bytes` or `string` field.
pub open spec fn bytes_encoder() -> spec_fn(Seq<u8>) -> Seq<u8> {
    |b: Seq<u8>| b
}

pub fn encode_any(m: &Any) -> (r: Vec<u8>)
    ensures
        r@ == spec_encode_any(m@),
{
    let mut v: Vec<u8> = Vec::new();
    put_bytes_field(&mut v, 1, m.type_url.as_slice());
    put_bytes_field(&mut v, 2, m.value.as_slice());
    proof {
        assert(v@ =~= spec_encode_any(m@));
    }
    v
}

/// Appends a repeated `Any` field, one length-prefixed element per entry.
pub fn put_anys(v: &mut Vec<u8>, field: u64, msgs: &Vec<Any>)
    requires
        field <= 2047,
    ensures
        final(v)@ == old(v)@ + enc_list(field, msgs.deep_view(), any_encoder()),
{
    let mut i: usize = 0;
    while i < msgs.len()
        invariant
            i <= msgs.len(),
            field <= 2047,
            v@ == old(v)@ + enc_list(field, msgs.deep_view().take(i as int), any_encoder()),
        decreases msgs.len() - i,
    {
        let e = encode_any(&msgs[i]);
        put_len_prefixed(v, field, e.as_slice());
        proof {
            let dv = msgs.deep_view();
            assert(dv.take(i + 1 as int).drop_last() =~= dv.take(i as int));
            assert(dv.take(i + 1 as int).last() == dv[i as int]);
            enc_list_snoc_anys(field, dv.take(i + 1 as int));
            assert(old(v)@ + (enc_list(field, dv.take(i as int), any_encoder()) + len_prefixed(
                field,
                spec_encode_any(dv[i as int]),
            )) =~= (old(v)@ + enc_list(field, dv.take(i as int), any_encoder())) + len_prefixed(
                field,
                spec_encode_any(dv[i as int]),
            ));
        }
        i = i + 1;
    }
    proof {
        assert(msgs.deep_view().take(msgs.deep_view().len() as int) =~= msgs.deep_view());
    }
}

proof fn enc_list_snoc_anys(field: u64, s: Seq<AnyV>)
    requires
        s.len() > 0,
    ensures
        enc_list(field, s, any_encoder()) == enc_list(field, s.drop_last(), any_encoder())
            + len_prefixed(field, spec_encode_any(s.last())),
{
    crate::encoding::enc_list_snoc(field, s, any_encoder());
}

/// Appends a repeated `bytes` (or `string`) field.
pub fn put_bytes_list(v: &mut Vec<u8>, field: u64, elems: &Vec<Vec<u8>>)
    requires
        field <= 2047,
    ensures
        final(v)@ == old(v)@ + enc_list(field, elems.deep_view(), bytes_encoder()),
{
    let mut i: usize = 0;
    while i < elems.len()
        invariant
            i <= elems.len(),
            field <= 2047,
            v@ == old(v)@ + enc_list(field, elems.deep_view().take(i as int), bytes_encoder()),
        decreases elems.len() - i,
    {
        put_len_prefixed(v, field, elems[i].as_slice());
        proof {
            let dv = elems.deep_view();
            assert(dv.take(i + 1 as int).drop_last() =~= dv.take(i as int));
            assert(dv.take(i + 1 as int).last() == dv[i as int]);
            crate::encoding::enc_list_snoc(field, dv.take(i + 1 as int), bytes_encoder());
            assert(old(v)@ + (enc_list(field, dv.take(i as int), bytes_encoder()) + len_prefixed(
                field,
                dv[i as int],
            )) =~= (old(v)@ + enc_list(field, dv.take(i as int), bytes_encoder())) + len_prefixed(
                field,
                dv[i as int],
            ));
        }
        i = i + 1;
    }
    proof {
        assert(elems.deep_view().take(elems.deep_view().len() as int) =~= elems.deep_view());
    }
}

/// A coin amount: denomination and decimal amount, both as text.
#[derive(Clone, Debug)]
pub struct Coin {
    pub denom: Vec<u8>,
    pub amount: Vec<u8>,
}

pub ghost struct CoinV {
    pub denom: Seq<u8>,
    pub amount: Seq<u8>,
}

impl View for Coin {
    type V = CoinV;

    open spec fn view(&self) -> CoinV {
        CoinV { denom: self.denom@, amount: self.amount@ }
    }
}

impl DeepView for Coin {
    type V = CoinV;

    open spec fn deep_view(&self) -> CoinV {
        self@
    }
}

pub open spec fn spec_encode_coin(m: CoinV) -> Seq<u8> {
    field_bytes(1, m.denom) + field_bytes(2, m.amount)
}

pub open spec fn coin_encoder() -> spec_fn(CoinV) -> Seq<u8> {
    |c: CoinV| spec_encode_coin(c)
}

pub fn encode_coin(m: &Coin) -> (r: Vec<u8>)
    ensures
        r@ == spec_encode_coin(m@),
{
    let mut v: Vec<u8> = Vec::new();
    put_bytes_field(&mut v, 1, m.denom.as_slice());
    put_bytes_field(&mut v, 2, m.amount.as_slice());
    proof {
        assert(v@ =~= spec_encode_coin(m@));
    }
    v
}

/// The fee of a transaction: coins, gas limit, and the (here always
/// empty) payer and granter addresses.
#[derive(Clone, Debug)]
pub struct Fee {
    pub amount: Vec<Coin>,
    pub gas_limit: u64,
    pub payer: Vec<u8>,
    pub granter: Vec<u8>,
}

pub ghost struct FeeV {
    pub amount: Seq<CoinV>,
    pub gas_limit: u64,
    pub payer: Seq<u8>,
    pub granter: Seq<u8>,
}

impl View for Fee {
    type V = FeeV;

    open spec fn view(&self) -> FeeV {
        FeeV {
            amount: self.amount.deep_view(),
            gas_limit: self.gas_limit,
            payer: self.payer@,
            granter: self.granter@,
        }
    }
}

impl DeepView for Fee {
    type V = FeeV;

    open spec fn deep_view(&self) -> FeeV {
        self@
    }
}

pub open spec fn spec_encode_fee(m: FeeV) -> Seq<u8> {
    enc_list(1, m.amount, coin_encoder()) + field_u64(2, m.gas_limit) + field_bytes(3, m.payer)
        + field_bytes(4, m.granter)
}

pub fn encode_fee(m: &Fee) -> (r: Vec<u8>)
    ensures
        r@ == spec_encode_fee(m@),
{
    let mut v: Vec<u8> = Vec::new();
    let mut i: usize = 0;
    while i < m.amount.len()
        invariant
            i <= m.amount.len(),
            v@ == enc_list(1, m.amount.deep_view().take(i as int), coin_encoder()),
        decreases m.amount.len() - i,
    {
        let e = encode_coin(&m.amount[i]);
        put_len_prefixed(&mut v, 1, e.as_slice());
        proof {
            let dv = m.amount.deep_view();
            assert(dv.take(i + 1 as int).drop_last() =~= dv.take(i as int));
            assert(dv.take(i + 1 as int).last() == dv[i as int]);
            crate::encoding::enc_list_snoc(1, dv.take(i + 1 as int), coin_encoder());
        }
        i = i + 1;
    }
    proof {
        assert(m.amount.deep_view().take(m.amount.deep_view().len() as int)
            =~= m.amount.deep_view());
    }
    put_u64_field(&mut v, 2, m.gas_limit);
    put_bytes_field(&mut v, 3, m.payer.as_slice());
    put_bytes_field(&mut v, 4, m.granter.as_slice());
    proof {
        assert(v@ =~= spec_encode_fee(m@));
    }
    v
}

/// The single signing mode this builder emits inside `ModeInfo`:
/// `SIGN_MODE_DIRECT` for transactions.  Multi-signatures are out of
/// scope.
#[derive(Clone, Debug)]
pub struct ModeInfo {
    pub mode: u64,
}

pub ghost struct ModeInfoV {
    pub mode: u64,
}

impl View for ModeInfo {
    type V = ModeInfoV;

    open spec fn view(&self) -> ModeInfoV {
        ModeInfoV { mode: self.mode }
    }
}

impl DeepView for ModeInfo {
    type V = ModeInfoV;

    open spec fn deep_view(&self) -> ModeInfoV {
        self@
    }
}

pub open spec fn spec_encode_mode_info(m: ModeInfoV) -> Seq<u8> {
    len_prefixed(1, field_u64(1, m.mode))
}

pub fn encode_mode_info(m: &ModeInfo) -> (r: Vec<u8>)
    ensures
        r@ == spec_encode_mode_info(m@),
{
    let mut inner: Vec<u8> = Vec::new();
    put_u64_field(&mut inner, 1, m.mode);
    let mut v: Vec<u8> = Vec::new();
    put_len_prefixed(&mut v, 1, inner.as_slice());
    proof {
        assert(Seq::<u8>::empty() + field_u64(1, m.mode) =~= field_u64(1, m.mode));
        assert(v@ =~= spec_encode_mode_info(m@));
    }
    v
}

/// One signer of a transaction: public key, signing mode and the
/// signer's account sequence.
#[derive(Clone, Debug)]
pub struct SignerInfo {
    pub public_key: Option<Any>,
    pub mode_info: Option<ModeInfo>,
    pub sequence: u64,
}

pub ghost struct SignerInfoV {
    pub public_key: Option<AnyV>,
    pub mode_info: Option<ModeInfoV>,
    pub sequence: u64,
}

impl View for SignerInfo {
    type V = SignerInfoV;

    open spec fn view(&self) -> SignerInfoV {
        SignerInfoV {
            public_key: self.public_key.deep_view(),
            mode_info: self.mode_info.deep_view(),
            sequence: self.sequence,
        }
    }
}

impl DeepView for SignerInfo {
    type V = SignerInfoV;

    open spec fn deep_view(&self) -> SignerInfoV {
        self@
    }
}

pub open spec fn spec_encode_signer_info(m: SignerInfoV) -> Seq<u8> {
    field_opt(
        1,
        match m.public_key {
            Some(a) => Some(spec_encode_any(a)),
            None => None,
        },
    ) + field_opt(
        2,
        match m.mode_info {
            Some(mi) => Some(spec_encode_mode_info(mi)),
            None => None,
        },
    ) + field_u64(3, m.sequence)
}

pub open spec fn signer_info_encoder() -> spec_fn(SignerInfoV) -> Seq<u8> {
    |s: SignerInfoV| spec_encode_signer_info(s)
}

pub fn encode_signer_info(m: &SignerInfo) -> (r: Vec<u8>)
    ensures
        r@ == spec_encode_signer_info(m@),
{
    let mut v: Vec<u8> = Vec::new();
    match &m.public_key {
        Some(a) => {
            let e = encode_any(a);
            put_len_prefixed(&mut v, 1, e.as_slice());
        },
        None => {},
    }
    match &m.mode_info {
        Some(mi) => {
            let e = encode_mode_info(mi);
            put_len_prefixed(&mut v, 2, e.as_slice());
        },
        None => {},
    }
    put_u64_field(&mut v, 3, m.sequence);
    proof {
        assert(v@ =~= spec_encode_signer_info(m@));
    }
    v
}

/// The authorisation part of a transaction: signers and fee.
#[derive(Clone, Debug)]
pub struct AuthInfo {
    pub signer_infos: Vec<SignerInfo>,
    pub fee: Option<Fee>,
}

pub ghost struct AuthInfoV {
    pub signer_infos: Seq<SignerInfoV>,
    pub fee: Option<FeeV>,
}

impl View for AuthInfo {
    type V = AuthInfoV;

    open spec fn view(&self) -> AuthInfoV {
        AuthInfoV { signer_infos: self.signer_infos.deep_view(), fee: self.fee.deep_view() }
    }
}

impl DeepView for AuthInfo {
    type V = AuthInfoV;

    open spec fn deep_view(&self) -> AuthInfoV {
        self@
    }
}

pub open spec fn spec_encode_auth_info(m: AuthInfoV) -> Seq<u8> {
    enc_list(1, m.signer_infos, signer_info_encoder()) + field_opt(
        2,
        match m.fee {
            Some(f) => Some(spec_encode_fee(f)),
            None => None,
        },
    )
}

pub fn encode_auth_info(m: &AuthInfo) -> (r: Vec<u8>)
    ensures
        r@ == spec_encode_auth_info(m@),
{
    let mut v: Vec<u8> = Vec::new();
    let mut i: usize = 0;
    while i < m.signer_infos.len()
        invariant
            i <= m.signer_infos.len(),
            v@ == enc_list(1, m.signer_infos.deep_view().take(i as int), signer_info_encoder()),
        decreases m.signer_infos.len() - i,
    {
        let e = encode_signer_info(&m.signer_infos[i]);
        put_len_prefixed(&mut v, 1, e.as_slice());
        proof {
            let dv = m.signer_infos.deep_view();
            assert(dv.take(i + 1 as int).drop_last() =~= dv.take(i as int));
            assert(dv.take(i + 1 as int).last() == dv[i as int]);
            crate::encoding::enc_list_snoc(1, dv.take(i + 1 as int), signer_info_encoder());
        }
        i = i + 1;
    }
    proof {
        assert(m.signer_infos.deep_view().take(m.signer_infos.deep_view().len() as int)
            =~= m.signer_infos.deep_view());
    }
    match &m.fee {
        Some(f) => {
            let e = encode_fee(f);
            put_len_prefixed(&mut v, 2, e.as_slice());
        },
        None => {},
    }
    proof {
        assert(v@ =~= spec_encode_auth_info(m@));
    }
    v
}

/// The body of a transaction: payload messages and memo.  The extension
/// slots exist on the wire but this builder always leaves them empty.
#[derive(Clone, Debug)]
pub struct TxBody {
    pub messages: Vec<Any>,
    pub memo: Vec<u8>,
    pub timeout_height: u64,
    pub extension_options: Vec<Any>,
    pub non_critical_extension_options: Vec<Any>,
}

pub ghost struct TxBodyV {
    pub messages: Seq<AnyV>,
    pub memo: Seq<u8>,
    pub timeout_height: u64,
    pub extension_options: Seq<AnyV>,
    pub non_critical_extension_options: Seq<AnyV>,
}

impl View for TxBody {
    type V = TxBodyV;

    open spec fn view(&self) -> TxBodyV {
        TxBodyV {
            messages: self.messages.deep_view(),
            memo: self.memo@,
            timeout_height: self.timeout_height,
            extension_options: self.extension_options.deep_view(),
            non_critical_extension_options: self.non_critical_extension_options.deep_view(),
        }
    }
}

impl DeepView for TxBody {
    type V = TxBodyV;

    open spec fn deep_view(&self) -> TxBodyV {
        self@
    }
}

pub open spec fn spec_encode_tx_body(m: TxBodyV) -> Seq<u8> {
    enc_list(1, m.messages, any_encoder()) + field_bytes(2, m.memo) + field_u64(
        3,
        m.timeout_height,
    ) + enc_list(1023, m.extension_options, any_encoder()) + enc_list(
        2047,
        m.non_critical_extension_options,
        any_encoder(),
    )
}

pub fn encode_tx_body(m: &TxBody) -> (r: Vec<u8>)
    ensures
        r@ == spec_encode_tx_body(m@),
{
    let mut v: Vec<u8> = Vec::new();
    put_anys(&mut v, 1, &m.messages);
    put_bytes_field(&mut v, 2, m.memo.as_slice());
    put_u64_field(&mut v, 3, m.timeout_height);
    put_anys(&mut v, 1023, &m.extension_options);
    put_anys(&mut v, 2047, &m.non_critical_extension_options);
    proof {
        assert(Seq::<u8>::empty() + enc_list(1, m.messages.deep_view(), any_encoder()) =~= enc_list(
            1,
            m.messages.deep_view(),
            any_encoder(),
        ));
        assert(v@ =~= spec_encode_tx_body(m@));
    }
    v
}

/// The signing preimage of a transaction.
#[derive(Clone, Debug)]
pub struct SignDoc {
    pub body_bytes: Vec<u8>,
    pub auth_info_bytes: Vec<u8>,
    pub chain_id: Vec<u8>,
    pub account_number: u64,
}

pub ghost struct SignDocV {
    pub body_bytes: Seq<u8>,
    pub auth_info_bytes: Seq<u8>,
    pub chain_id: Seq<u8>,
    pub account_number: u64,
}

impl View for SignDoc {
    type V = SignDocV;

    open spec fn view(&self) -> SignDocV {
        SignDocV {
            body_bytes: self.body_bytes@,
            auth_info_bytes: self.auth_info_bytes@,
            chain_id: self.chain_id@,
            account_number: self.account_number,
        }
    }
}

impl DeepView for SignDoc {
    type V = SignDocV;

    open spec fn deep_view(&self) -> SignDocV {
        self@
    }
}

pub open spec fn spec_encode_sign_doc(m: SignDocV) -> Seq<u8> {
    field_bytes(1, m.body_bytes) + field_bytes(2, m.auth_info_bytes) + field_bytes(3, m.chain_id)
        + field_u64(4, m.account_number)
}

pub fn encode_sign_doc(m: &SignDoc) -> (r: Vec<u8>)
    ensures
        r@ == spec_encode_sign_doc(m@),
{
    let mut v: Vec<u8> = Vec::new();
    put_bytes_field(&mut v, 1, m.body_bytes.as_slice());
    put_bytes_field(&mut v, 2, m.auth_info_bytes.as_slice());
    put_bytes_field(&mut v, 3, m.chain_id.as_slice());
    put_u64_field(&mut v, 4, m.account_number);
    proof {
        assert(v@ =~= spec_encode_sign_doc(m@));
    }
    v
}

/// A signed transaction, ready for broadcast.  `body_bytes` and
/// `auth_info_bytes` are the very encodings that were signed, not
/// re-encodings.
#[derive(Clone, Debug)]
pub struct TxRaw {
    pub body_bytes: Vec<u8>,
    pub auth_info_bytes: Vec<u8>,
    pub signatures: Vec<Vec<u8>>,
}

pub ghost struct TxRawV {
    pub body_bytes: Seq<u8>,
    pub auth_info_bytes: Seq<u8>,
    pub signatures: Seq<Seq<u8>>,
}

impl View for TxRaw {
    type V = TxRawV;

    open spec fn view(&self) -> TxRawV {
        TxRawV {
            body_bytes: self.body_bytes@,
            auth_info_bytes: self.auth_info_bytes@,
            signatures: self.signatures.deep_view(),
        }
    }
}

impl DeepView for TxRaw {
    type V = TxRawV;

    open spec fn deep_view(&self) -> TxRawV {
        self@
    }
}

pub open spec fn spec_encode_tx_raw(m: TxRawV) -> Seq<u8> {
    field_bytes(1, m.body_bytes) + field_bytes(2, m.auth_info_bytes) + enc_list(
        3,
        m.signatures,
        bytes_encoder(),
    )
}

pub fn encode_tx_raw(m: &TxRaw) -> (r: Vec<u8>)
    ensures
        r@ == spec_encode_tx_raw(m@),
{
    let mut v: Vec<u8> = Vec::new();
    put_bytes_field(&mut v, 1, m.body_bytes.as_slice());
    put_bytes_field(&mut v, 2, m.auth_info_bytes.as_slice());
    put_bytes_list(&mut v, 3, &m.signatures);
    proof {
        assert(v@ =~= spec_encode_tx_raw(m@));
    }
    v
}

/// The secp256k1 public-key message: the compressed SEC1 bytes.
pub open spec fn spec_encode_pub_key(key: Seq<u8>) -> Seq<u8> {
    field_bytes(1, key)
}

pub fn encode_pub_key(key: &Vec<u8>) -> (r: Vec<u8>)
    ensures
        r@ == spec_encode_pub_key(key@),
{
    let mut v: Vec<u8> = Vec::new();
    put_bytes_field(&mut v, 1, key.as_slice());
    proof {
        assert(v@ =~= spec_encode_pub_key(key@));
    }
    v
}

} // verus!
