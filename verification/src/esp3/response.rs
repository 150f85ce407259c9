//! The structures of ESP3 response data and their wire encoding.

use vstd::prelude::*;
use crate::max_array::MaxArray;
use crate::max_array_ext::{self, MaxArrayPushIntExt};
use crate::esp3::{MAX_OPTIONAL_LENGTH, DATA_AFTER_CODE_LENGTH, MAX_FILTER_ENTRIES, MAX_LEARNED_CLIENTS};
use crate::esp3::codes::{
    ChannelNumber, ExtendedLearnMode, FilterCriterion, Frequency, MailboxStatus, MemoryType, OneByteBoolean,
    Protocol, RepeaterEnable, RepeaterLevel, TxOnlyMode,
};
use crate::esp3::wire::{self, push_bytes, read_u16_be, read_u24_be, read_u32_be, read_u32x4_be};

verus! {

/// Response data: what a response packet carries after its return code.
///
/// Each kind of response data has its own layout; the spec functions describe it.
pub trait ResponseData: Sized {
    /// The data bytes (after the return code) that encode this value.
    spec fn data_spec(&self) -> Seq<u8>;

    /// The optional bytes that encode this value, or `None` if an optional field is set while
    /// an earlier one is not.
    spec fn optional_spec(&self) -> Option<Seq<u8>>;

    /// Whether data bytes of the given length decode.
    spec fn accepts(data_len: nat) -> bool;

    /// Whether decoding data and optional data of the given lengths fits the capacities of the
    /// arrays it fills.
    spec fn fits_capacity(data_len: nat, opt_len: nat) -> bool;

    /// Whether this value is what the given data and optional bytes decode to.
    spec fn decoded_from(&self, data: Seq<u8>, opt: Seq<u8>) -> bool;

    /// Attempts to deserialize response data from the given data and optional data slices.
    ///
    /// The data slice must not contain the return code in its first byte.
    fn from_data(data_slice: &[u8], optional_slice: &[u8]) -> (ret: Option<Self>)
        requires
            Self::fits_capacity(data_slice@.len(), optional_slice@.len()),
        ensures
            ret is Some <==> Self::accepts(data_slice@.len()),
            ret matches Some(v) ==> v.decoded_from(data_slice@, optional_slice@),
    ;

    /// Serializes this response data into data bytes (one byte shorter than the maximum data
    /// length, to leave space for the return code).
    fn to_data(&self) -> (ret: MaxArray<u8, DATA_AFTER_CODE_LENGTH>)
        ensures
            ret@ == self.data_spec(),
    ;

    /// Serializes this response data into optional data bytes; `None` if an optional field is
    /// set while an earlier one is not.
    fn to_optional_data(&self) -> (ret: Option<MaxArray<u8, MAX_OPTIONAL_LENGTH>>)
        ensures
            match self.optional_spec() {
                Some(o) => ret matches Some(r) && r@ == o,
                None => ret is None,
            },
    ;

    /// Whether encoding this value and decoding the bytes gives back this value: every field
    /// holds a value that its bytes decode to.
    spec fn round_trips(&self) -> bool;

    /// Decoding the bytes that encode a value gives back that value.
    proof fn lemma_encoded_decodes(&self)
        requires
            self.round_trips(),
            self.optional_spec() is Some,
        ensures
            Self::accepts(self.data_spec().len()),
            self.decoded_from(self.data_spec(), self.optional_spec().unwrap()),
    ;

    /// Whether encoding what the given data bytes decode to can give back those bytes: true
    /// unless the layout writes one field in place of another.
    spec fn keeps_data(data: Seq<u8>) -> bool;

    /// Encoding a decoded value gives back the data bytes it was decoded from.
    proof fn lemma_decoded_encodes(&self, data: Seq<u8>, opt: Seq<u8>)
        requires
            self.decoded_from(data, opt),
            Self::keeps_data(data),
        ensures
            self.data_spec() == data,
    ;
}

/// A single entry in the filter list read back from the controller.
#[derive(Clone, Copy, Debug, PartialEq, Eq, Structural, Hash, PartialOrd, Ord)]
pub struct FilterEntry {
    pub criterion: FilterCriterion,
    pub value: u32,
}

/// Information about a learned client.
#[derive(Clone, Copy, Debug, PartialEq, Eq, Structural, Hash, PartialOrd, Ord)]
pub struct LearnedClient {
    pub smart_ack_client_id: u32,
    pub controller_id: u32,
    pub mailbox_index: u8,
}

/// The filter entries stored in `data`: one per group of five bytes (the criterion, then the
/// value in big-endian order).
pub open spec fn filters_at(data: Seq<u8>) -> Seq<FilterEntry> {
    Seq::new(
        data.len() / 5,
        |k: int| FilterEntry {
            criterion: FilterCriterion::from_byte_spec(data[5 * k]),
            value: wire::be_u32_at(data, 5 * k + 1),
        },
    )
}

/// The bytes that encode a list of filter entries.
pub open spec fn filter_bytes(filters: Seq<FilterEntry>) -> Seq<u8>
    decreases filters.len(),
{
    if filters.len() == 0 {
        Seq::empty()
    } else {
        let last = filters.last();
        filter_bytes(filters.drop_last()).push(last.criterion.to_byte_spec())
            + max_array_ext::be_u32_bytes(last.value)
    }
}

/// The learned clients stored in `data`: one per group of nine bytes (the client ID and the
/// controller ID in big-endian order, then the mailbox index).
pub open spec fn learned_clients_at(data: Seq<u8>) -> Seq<LearnedClient> {
    Seq::new(
        data.len() / 9,
        |k: int| LearnedClient {
            smart_ack_client_id: wire::be_u32_at(data, 9 * k),
            controller_id: wire::be_u32_at(data, 9 * k + 4),
            mailbox_index: data[9 * k + 8],
        },
    )
}

/// The bytes that encode a list of learned clients.
pub open spec fn learned_client_bytes(clients: Seq<LearnedClient>) -> Seq<u8>
    decreases clients.len(),
{
    if clients.len() == 0 {
        Seq::empty()
    } else {
        let last = clients.last();
        (learned_client_bytes(clients.drop_last()) + max_array_ext::be_u32_bytes(last.smart_ack_client_id)
            + max_array_ext::be_u32_bytes(last.controller_id)).push(last.mailbox_index)
    }
}

/// Reads sixteen bytes starting at `s[i]`.
fn read_u8x16(s: &[u8], i: usize) -> (ret: [u8; 16])
    requires
        i + 16 <= s@.len(),
    ensures
        ret@ == s@.subrange(i as int, i + 16),
{
    let mut ret = [0u8; 16];
    let n = s.len();
    let mut k: usize = 0;
    while k < 16
        invariant
            k <= 16,
            n == s@.len(),
            i + 16 <= s@.len(),
            forall|j: int| 0 <= j < k ==> ret@[j] == s@[i + j],
        decreases 16 - k,
    {
        ret[k] = s[i + k];
        k += 1;
    }
    assert(ret@ =~= s@.subrange(i as int, i + 16));
    ret
}

/// Response data to [CommandData::CoRdVersion].
#[derive(Clone, Copy, Debug, PartialEq, Eq, Hash, PartialOrd, Ord)]
pub struct CoRdVersion {
    pub app_version: u32,
    pub api_version: u32,
    pub chip_id: u32,
    pub chip_version: u32,
    pub app_description: [u8; 16],
}

impl ResponseData for CoRdVersion {
    open spec fn data_spec(&self) -> Seq<u8> {
        (((((Seq::<u8>::empty() + max_array_ext::be_u32_bytes(self.app_version)) + max_array_ext::be_u32_bytes(self.api_version)) + max_array_ext::be_u32_bytes(self.chip_id)) + max_array_ext::be_u32_bytes(self.chip_version)) + self.app_description@)
    }

    open spec fn optional_spec(&self) -> Option<Seq<u8>> {
        Some(Seq::<u8>::empty())
    }

    open spec fn accepts(data_len: nat) -> bool {
        data_len == 32
    }

    open spec fn fits_capacity(data_len: nat, opt_len: nat) -> bool {
        true
    }

    open spec fn decoded_from(&self, data: Seq<u8>, opt: Seq<u8>) -> bool {
        &&& data.len() == 32
        &&& self.app_version == wire::be_u32_at(data, 0)
        &&& self.api_version == wire::be_u32_at(data, 4)
        &&& self.chip_id == wire::be_u32_at(data, 8)
        &&& self.chip_version == wire::be_u32_at(data, 12)
        &&& self.app_description@ == data.subrange(16, 32)
    }

    fn from_data(data_slice: &[u8], optional_slice: &[u8]) -> (ret: Option<Self>) {
        if data_slice.len() != 32 {
            return None;
        }
        let app_version = read_u32_be(data_slice, 0);
        let api_version = read_u32_be(data_slice, 4);
        let chip_id = read_u32_be(data_slice, 8);
        let chip_version = read_u32_be(data_slice, 12);
        let app_description = read_u8x16(data_slice, 16);
        Some(CoRdVersion { app_version, api_version, chip_id, chip_version, app_description })
    }

    fn to_data(&self) -> (ret: MaxArray<u8, DATA_AFTER_CODE_LENGTH>) {
        let mut ret: MaxArray<u8, DATA_AFTER_CODE_LENGTH> = MaxArray::new();
        let app_version = &self.app_version;
        let api_version = &self.api_version;
        let chip_id = &self.chip_id;
        let chip_version = &self.chip_version;
        let app_description = &self.app_description;
        ret.push_u32_be(*app_version).unwrap();
        ret.push_u32_be(*api_version).unwrap();
        ret.push_u32_be(*chip_id).unwrap();
        ret.push_u32_be(*chip_version).unwrap();
        push_bytes(&mut ret, app_description.as_slice());
        ret
    }

    fn to_optional_data(&self) -> (ret: Option<MaxArray<u8, MAX_OPTIONAL_LENGTH>>) {
        let mut ret: MaxArray<u8, MAX_OPTIONAL_LENGTH> = MaxArray::new();
        Some(ret)
    }

    open spec fn round_trips(&self) -> bool {
        true
    }

    proof fn lemma_encoded_decodes(&self) {
        let d = self.data_spec();
        assert(d.len() == 32);
        assert(d.subrange(0int, 4int) =~= max_array_ext::be_u32_bytes(self.app_version));
        wire::lemma_u32_roundtrip(self.app_version);
        assert(d.subrange(4int, 8int) =~= max_array_ext::be_u32_bytes(self.api_version));
        wire::lemma_u32_roundtrip(self.api_version);
        assert(d.subrange(8int, 12int) =~= max_array_ext::be_u32_bytes(self.chip_id));
        wire::lemma_u32_roundtrip(self.chip_id);
        assert(d.subrange(12int, 16int) =~= max_array_ext::be_u32_bytes(self.chip_version));
        wire::lemma_u32_roundtrip(self.chip_version);
        assert(self.app_description@ =~= d.subrange(16int, 32int));
    }

    open spec fn keeps_data(data: Seq<u8>) -> bool {
        true
    }

    proof fn lemma_decoded_encodes(&self, data: Seq<u8>, opt: Seq<u8>) {
        wire::lemma_u32_bytes_of(data.subrange(0int, 4int));
        wire::lemma_u32_bytes_of(data.subrange(4int, 8int));
        wire::lemma_u32_bytes_of(data.subrange(8int, 12int));
        wire::lemma_u32_bytes_of(data.subrange(12int, 16int));
        assert(self.data_spec() =~= data);
    }
}

/// Response data to [CommandData::CoRdSysLog].
#[derive(Clone, Debug, PartialEq, Eq, Hash, PartialOrd, Ord)]
pub struct CoRdSysLog {
    pub api_log_entries: MaxArray<u8, DATA_AFTER_CODE_LENGTH>,
    pub app_log_entries: MaxArray<u8, MAX_OPTIONAL_LENGTH>,
}

impl ResponseData for CoRdSysLog {
    open spec fn data_spec(&self) -> Seq<u8> {
        self.api_log_entries@
    }

    open spec fn optional_spec(&self) -> Option<Seq<u8>> {
        Some(self.app_log_entries@)
    }

    open spec fn accepts(data_len: nat) -> bool {
        true
    }

    open spec fn fits_capacity(data_len: nat, opt_len: nat) -> bool {
        data_len <= DATA_AFTER_CODE_LENGTH && opt_len <= MAX_OPTIONAL_LENGTH
    }

    open spec fn decoded_from(&self, data: Seq<u8>, opt: Seq<u8>) -> bool {
        self.api_log_entries@ == data && self.app_log_entries@ == opt
    }

    fn from_data(data_slice: &[u8], optional_slice: &[u8]) -> (ret: Option<Self>) {
        let api_log_entries = MaxArray::from_iter_or_panic(data_slice);
        let app_log_entries = MaxArray::from_iter_or_panic(optional_slice);
        Some(CoRdSysLog { api_log_entries, app_log_entries })
    }

    fn to_data(&self) -> (ret: MaxArray<u8, DATA_AFTER_CODE_LENGTH>) {
        self.api_log_entries.clone()
    }

    fn to_optional_data(&self) -> (ret: Option<MaxArray<u8, MAX_OPTIONAL_LENGTH>>) {
        Some(self.app_log_entries.clone())
    }

    open spec fn round_trips(&self) -> bool {
        true
    }

    proof fn lemma_encoded_decodes(&self) {
    }

    open spec fn keeps_data(data: Seq<u8>) -> bool {
        true
    }

    proof fn lemma_decoded_encodes(&self, data: Seq<u8>, opt: Seq<u8>) {
    }
}

/// Response data to [CommandData::CoWrBiSt].
#[derive(Clone, Copy, Debug, PartialEq, Eq, Hash, PartialOrd, Ord)]
pub struct CoWrBiSt {
    pub bist_result: u8,
}

impl ResponseData for CoWrBiSt {
    open spec fn data_spec(&self) -> Seq<u8> {
        Seq::<u8>::empty().push(self.bist_result)
    }

    open spec fn optional_spec(&self) -> Option<Seq<u8>> {
        Some(Seq::<u8>::empty())
    }

    open spec fn accepts(data_len: nat) -> bool {
        data_len == 1
    }

    open spec fn fits_capacity(data_len: nat, opt_len: nat) -> bool {
        true
    }

    open spec fn decoded_from(&self, data: Seq<u8>, opt: Seq<u8>) -> bool {
        &&& data.len() == 1
        &&& self.bist_result == data[0]
    }

    fn from_data(data_slice: &[u8], optional_slice: &[u8]) -> (ret: Option<Self>) {
        if data_slice.len() != 1 {
            return None;
        }
        let bist_result = data_slice[0];
        Some(CoWrBiSt { bist_result })
    }

    fn to_data(&self) -> (ret: MaxArray<u8, DATA_AFTER_CODE_LENGTH>) {
        let mut ret: MaxArray<u8, DATA_AFTER_CODE_LENGTH> = MaxArray::new();
        let bist_result = &self.bist_result;
        ret.push(*bist_result).unwrap();
        ret
    }

    fn to_optional_data(&self) -> (ret: Option<MaxArray<u8, MAX_OPTIONAL_LENGTH>>) {
        let mut ret: MaxArray<u8, MAX_OPTIONAL_LENGTH> = MaxArray::new();
        Some(ret)
    }

    open spec fn round_trips(&self) -> bool {
        true
    }

    proof fn lemma_encoded_decodes(&self) {
        let d = self.data_spec();
        assert(d.len() == 1);
        assert(d[0] == self.bist_result);
    }

    open spec fn keeps_data(data: Seq<u8>) -> bool {
        true
    }

    proof fn lemma_decoded_encodes(&self, data: Seq<u8>, opt: Seq<u8>) {
        assert(self.data_spec() =~= data);
    }
}

/// Response data to [CommandData::CoRdIdBase].
#[derive(Clone, Copy, Debug, PartialEq, Eq, Hash, PartialOrd, Ord)]
pub struct CoRdIdBase {
    pub base_id: u32,
    pub opt_remaining_write_cycles: Option<u8>,
}

impl ResponseData for CoRdIdBase {
    open spec fn data_spec(&self) -> Seq<u8> {
        (Seq::<u8>::empty() + max_array_ext::be_u32_bytes(self.base_id))
    }

    open spec fn optional_spec(&self) -> Option<Seq<u8>> {
        let s0 = Seq::<u8>::empty();
        let s1 = match self.opt_remaining_write_cycles { Some(x) => s0.push(x), None => s0 };
        Some(s1)
    }

    open spec fn accepts(data_len: nat) -> bool {
        data_len == 4
    }

    open spec fn fits_capacity(data_len: nat, opt_len: nat) -> bool {
        true
    }

    open spec fn decoded_from(&self, data: Seq<u8>, opt: Seq<u8>) -> bool {
        &&& data.len() == 4
        &&& self.base_id == wire::be_u32_at(data, 0)
        &&& self.opt_remaining_write_cycles == (if opt.len() >= 1 { Some(opt[0]) } else { None })
    }

    fn from_data(data_slice: &[u8], optional_slice: &[u8]) -> (ret: Option<Self>) {
        if data_slice.len() != 4 {
            return None;
        }
        let base_id = read_u32_be(data_slice, 0);
        let opt_remaining_write_cycles = if optional_slice.len() >= 1 {
            Some(optional_slice[0])
        } else {
            None
        };
        Some(CoRdIdBase { base_id, opt_remaining_write_cycles })
    }

    fn to_data(&self) -> (ret: MaxArray<u8, DATA_AFTER_CODE_LENGTH>) {
        let mut ret: MaxArray<u8, DATA_AFTER_CODE_LENGTH> = MaxArray::new();
        let base_id = &self.base_id;
        ret.push_u32_be(*base_id).unwrap();
        ret
    }

    fn to_optional_data(&self) -> (ret: Option<MaxArray<u8, MAX_OPTIONAL_LENGTH>>) {
        let mut ret: MaxArray<u8, MAX_OPTIONAL_LENGTH> = MaxArray::new();
        if let Some(x) = &self.opt_remaining_write_cycles {
            ret.push(*x).unwrap();
        }
        Some(ret)
    }

    open spec fn round_trips(&self) -> bool {
        true
    }

    proof fn lemma_encoded_decodes(&self) {
        let d = self.data_spec();
        let o = self.optional_spec().unwrap();
        assert(d.len() == 4);
        assert(d.subrange(0int, 4int) =~= max_array_ext::be_u32_bytes(self.base_id));
        wire::lemma_u32_roundtrip(self.base_id);
        if let Some(x) = self.opt_remaining_write_cycles {
            assert(o[0] == x);
        }
    }

    open spec fn keeps_data(data: Seq<u8>) -> bool {
        true
    }

    proof fn lemma_decoded_encodes(&self, data: Seq<u8>, opt: Seq<u8>) {
        wire::lemma_u32_bytes_of(data.subrange(0int, 4int));
        assert(self.data_spec() =~= data);
    }
}

/// Response data to [CommandData::CoRdRepeater].
#[derive(Clone, Copy, Debug, PartialEq, Eq, Hash, PartialOrd, Ord)]
pub struct CoRdRepeater {
    pub enabled: RepeaterEnable,
    pub level: RepeaterLevel,
}

impl ResponseData for CoRdRepeater {
    open spec fn data_spec(&self) -> Seq<u8> {
        Seq::<u8>::empty().push(self.enabled.to_byte_spec()).push(self.level.to_byte_spec())
    }

    open spec fn optional_spec(&self) -> Option<Seq<u8>> {
        Some(Seq::<u8>::empty())
    }

    open spec fn accepts(data_len: nat) -> bool {
        data_len == 2
    }

    open spec fn fits_capacity(data_len: nat, opt_len: nat) -> bool {
        true
    }

    open spec fn decoded_from(&self, data: Seq<u8>, opt: Seq<u8>) -> bool {
        &&& data.len() == 2
        &&& self.enabled == RepeaterEnable::from_byte_spec(data[0])
        &&& self.level == RepeaterLevel::from_byte_spec(data[1])
    }

    fn from_data(data_slice: &[u8], optional_slice: &[u8]) -> (ret: Option<Self>) {
        if data_slice.len() != 2 {
            return None;
        }
        let enabled = RepeaterEnable::from(data_slice[0]);
        let level = RepeaterLevel::from(data_slice[1]);
        Some(CoRdRepeater { enabled, level })
    }

    fn to_data(&self) -> (ret: MaxArray<u8, DATA_AFTER_CODE_LENGTH>) {
        let mut ret: MaxArray<u8, DATA_AFTER_CODE_LENGTH> = MaxArray::new();
        let enabled = &self.enabled;
        let level = &self.level;
        ret.push(u8::from(*enabled)).unwrap();
        ret.push(u8::from(*level)).unwrap();
        ret
    }

    fn to_optional_data(&self) -> (ret: Option<MaxArray<u8, MAX_OPTIONAL_LENGTH>>) {
        let mut ret: MaxArray<u8, MAX_OPTIONAL_LENGTH> = MaxArray::new();
        Some(ret)
    }

    open spec fn round_trips(&self) -> bool {
        RepeaterEnable::from_byte_spec(self.enabled.to_byte_spec()) == self.enabled && RepeaterLevel::from_byte_spec(self.level.to_byte_spec()) == self.level
    }

    proof fn lemma_encoded_decodes(&self) {
        let d = self.data_spec();
        assert(d.len() == 2);
        assert(d[0] == self.enabled.to_byte_spec());
        assert(d[1] == self.level.to_byte_spec());
    }

    open spec fn keeps_data(data: Seq<u8>) -> bool {
        true
    }

    proof fn lemma_decoded_encodes(&self, data: Seq<u8>, opt: Seq<u8>) {
        RepeaterEnable::lemma_byte_roundtrip(data[0]);
        RepeaterLevel::lemma_byte_roundtrip(data[1]);
        assert(self.data_spec() =~= data);
    }
}

/// Response data to [CommandData::CoRdFilter].
#[derive(Clone, Debug, PartialEq, Eq, Hash, PartialOrd, Ord)]
pub struct CoRdFilter {
    pub filters: MaxArray<FilterEntry, MAX_FILTER_ENTRIES>,
}

/// The bytes of a list of filter entries hold five bytes per entry, in order.
proof fn lemma_filter_bytes(filters: Seq<FilterEntry>)
    ensures
        filter_bytes(filters).len() == 5 * filters.len(),
        forall|k: int|
            0 <= k < filters.len() ==> #[trigger] filters[k].criterion.to_byte_spec() == filter_bytes(filters)[5 * k]
                && filter_bytes(filters).subrange(5 * k + 1, 5 * k + 5) == max_array_ext::be_u32_bytes(filters[k].value),
    decreases filters.len(),
{
    if filters.len() > 0 {
        lemma_filter_bytes(filters.drop_last());
        let prev = filter_bytes(filters.drop_last());
        let b = filter_bytes(filters);
        let n = filters.len() - 1;
        assert forall|k: int| 0 <= k < filters.len() implies #[trigger] filters[k].criterion.to_byte_spec() == b[5 * k]
            && b.subrange(5 * k + 1, 5 * k + 5) == max_array_ext::be_u32_bytes(filters[k].value) by {
            if k < n {
                assert(filters.drop_last()[k] == filters[k]);
                assert(b[5 * k] == prev[5 * k]);
                assert(b.subrange(5 * k + 1, 5 * k + 5) =~= prev.subrange(5 * k + 1, 5 * k + 5));
            } else {
                assert(b.subrange(5 * k + 1, 5 * k + 5) =~= max_array_ext::be_u32_bytes(filters[k].value));
            }
        }
    }
}

/// Reading the filter entries from the bytes that encode them gives back the entries, when each
/// criterion survives being written as its byte.
proof fn lemma_filters_roundtrip(filters: Seq<FilterEntry>)
    requires
        forall|k: int|
            0 <= k < filters.len() ==> FilterCriterion::from_byte_spec(
                #[trigger] filters[k].criterion.to_byte_spec(),
            ) == filters[k].criterion,
    ensures
        filter_bytes(filters).len() % 5 == 0,
        filters_at(filter_bytes(filters)) == filters,
{
    lemma_filter_bytes(filters);
    let b = filter_bytes(filters);
    let r = filters_at(b);
    assert(b.len() % 5 == 0 && b.len() / 5 == filters.len()) by (nonlinear_arith)
        requires
            b.len() == 5 * filters.len(),
    ;
    assert forall|k: int| 0 <= k < filters.len() implies #[trigger] r[k] == filters[k] by {
        assert(filters[k].criterion.to_byte_spec() == b[5 * k]);
        wire::lemma_u32_roundtrip(filters[k].value);
        assert(b.subrange(5 * k + 1, 5 * k + 5) == max_array_ext::be_u32_bytes(filters[k].value));
    }
    assert(r =~= filters);
}

/// Encoding the filter entries stored in whole groups of five bytes gives back those bytes.
proof fn lemma_filter_bytes_of(data: Seq<u8>)
    requires
        data.len() % 5 == 0,
    ensures
        filter_bytes(filters_at(data)) == data,
{
    let filters = filters_at(data);
    lemma_filter_bytes(filters);
    let b = filter_bytes(filters);
    assert(5 * filters.len() == data.len()) by (nonlinear_arith)
        requires
            data.len() % 5 == 0,
            filters.len() == data.len() / 5,
    ;
    assert forall|i: int| 0 <= i < data.len() implies #[trigger] b[i] == data[i] by {
        let k = i / 5;
        assert(0 <= k < filters.len() && 5 * k <= i < 5 * k + 5) by (nonlinear_arith)
            requires
                0 <= i < data.len(),
                k == i / 5,
                5 * filters.len() == data.len(),
        ;
        FilterCriterion::lemma_byte_roundtrip(data[5 * k]);
        wire::lemma_u32_bytes_of(data.subrange(5 * k + 1, 5 * k + 5));
        assert(filters[k].criterion.to_byte_spec() == b[5 * k]);
        if i > 5 * k {
            assert(b.subrange(5 * k + 1, 5 * k + 5)[i - 5 * k - 1] == b[i]);
            assert(data.subrange(5 * k + 1, 5 * k + 5)[i - 5 * k - 1] == data[i]);
        }
    }
    assert(b =~= data);
}

impl ResponseData for CoRdFilter {
    open spec fn data_spec(&self) -> Seq<u8> {
        filter_bytes(self.filters@)
    }

    open spec fn optional_spec(&self) -> Option<Seq<u8>> {
        Some(Seq::<u8>::empty())
    }

    open spec fn accepts(data_len: nat) -> bool {
        data_len % 5 == 0
    }

    open spec fn fits_capacity(data_len: nat, opt_len: nat) -> bool {
        data_len % 5 == 0 ==> data_len / 5 <= MAX_FILTER_ENTRIES
    }

    open spec fn decoded_from(&self, data: Seq<u8>, opt: Seq<u8>) -> bool {
        data.len() % 5 == 0 && self.filters@ == filters_at(data)
    }

    fn from_data(data_slice: &[u8], optional_slice: &[u8]) -> (ret: Option<Self>) {
        if data_slice.len() % 5 != 0 {
            return None;
        }
        let ghost expected = filters_at(data_slice@);
        let mut filters: MaxArray<FilterEntry, MAX_FILTER_ENTRIES> = MaxArray::new();
        let mut i: usize = 0;
        while i < data_slice.len()
            invariant
                data_slice@.len() % 5 == 0,
                data_slice@.len() / 5 <= MAX_FILTER_ENTRIES,
                i % 5 == 0,
                i <= data_slice@.len(),
                filters@.len() == i / 5,
                filters@ == expected.subrange(0, (i / 5) as int),
                expected == filters_at(data_slice@),
            decreases data_slice@.len() - i,
        {
            let criterion = FilterCriterion::from(data_slice[i]);
            let value = read_u32_be(data_slice, i + 1);
            let ghost k = (i / 5) as int;
            assert(5 * k == i);
            filters.push(FilterEntry { criterion, value }).unwrap();
            i += 5;
            assert(filters@ == expected.subrange(0, (i / 5) as int));
        }
        assert(filters@ == expected);
        Some(CoRdFilter { filters })
    }

    fn to_data(&self) -> (ret: MaxArray<u8, DATA_AFTER_CODE_LENGTH>) {
        proof { use_type_invariant(&self.filters); }
        let entries = self.filters.as_slice();
        let mut ret: MaxArray<u8, DATA_AFTER_CODE_LENGTH> = MaxArray::new();
        let mut k: usize = 0;
        while k < entries.len()
            invariant
                k <= entries@.len(),
                entries@ == self.filters@,
                entries@.len() <= MAX_FILTER_ENTRIES,
                ret@ == filter_bytes(entries@.subrange(0, k as int)),
                ret@.len() == 5 * k,
            decreases entries@.len() - k,
        {
            let entry = entries[k];
            ret.push(u8::from(entry.criterion)).unwrap();
            ret.push_u32_be(entry.value).unwrap();
            proof {
                let prefix = entries@.subrange(0, k + 1);
                assert(prefix.drop_last() == entries@.subrange(0, k as int));
                assert(prefix.last() == entry);
            }
            k += 1;
        }
        assert(entries@.subrange(0, entries@.len() as int) == entries@);
        ret
    }

    fn to_optional_data(&self) -> (ret: Option<MaxArray<u8, MAX_OPTIONAL_LENGTH>>) {
        Some(MaxArray::new())
    }

    open spec fn round_trips(&self) -> bool {
        forall|k: int|
            0 <= k < self.filters@.len() ==> FilterCriterion::from_byte_spec(
                #[trigger] self.filters@[k].criterion.to_byte_spec(),
            ) == self.filters@[k].criterion
    }

    proof fn lemma_encoded_decodes(&self) {
        lemma_filters_roundtrip(self.filters@);
    }

    open spec fn keeps_data(data: Seq<u8>) -> bool {
        true
    }

    proof fn lemma_decoded_encodes(&self, data: Seq<u8>, opt: Seq<u8>) {
        lemma_filter_bytes_of(data);
    }
}

/// Response data to [CommandData::CoRdMem].
#[derive(Clone, Debug, PartialEq, Eq, Hash, PartialOrd, Ord)]
pub struct CoRdMem {
    pub data: MaxArray<u8, DATA_AFTER_CODE_LENGTH>,
}

impl ResponseData for CoRdMem {
    open spec fn data_spec(&self) -> Seq<u8> {
        self.data@
    }

    open spec fn optional_spec(&self) -> Option<Seq<u8>> {
        Some(Seq::<u8>::empty())
    }

    open spec fn accepts(data_len: nat) -> bool {
        true
    }

    open spec fn fits_capacity(data_len: nat, opt_len: nat) -> bool {
        data_len <= DATA_AFTER_CODE_LENGTH
    }

    open spec fn decoded_from(&self, data: Seq<u8>, opt: Seq<u8>) -> bool {
        self.data@ == data
    }

    fn from_data(data_slice: &[u8], optional_slice: &[u8]) -> (ret: Option<Self>) {
        let data = MaxArray::from_iter_or_panic(data_slice);
        Some(CoRdMem { data })
    }

    fn to_data(&self) -> (ret: MaxArray<u8, DATA_AFTER_CODE_LENGTH>) {
        self.data.clone()
    }

    fn to_optional_data(&self) -> (ret: Option<MaxArray<u8, MAX_OPTIONAL_LENGTH>>) {
        Some(MaxArray::new())
    }

    open spec fn round_trips(&self) -> bool {
        true
    }

    proof fn lemma_encoded_decodes(&self) {
    }

    open spec fn keeps_data(data: Seq<u8>) -> bool {
        true
    }

    proof fn lemma_decoded_encodes(&self, data: Seq<u8>, opt: Seq<u8>) {
    }
}

/// Response data to [CommandData::CoRdMemAddress].
#[derive(Clone, Copy, Debug, PartialEq, Eq, Hash, PartialOrd, Ord)]
pub struct CoRdMemAddress {
    pub memory_type: MemoryType,
    pub address: u32,
    pub length: u32,
}

impl ResponseData for CoRdMemAddress {
    open spec fn data_spec(&self) -> Seq<u8> {
        ((Seq::<u8>::empty().push(self.memory_type.to_byte_spec()) + max_array_ext::be_u32_bytes(self.address)) + max_array_ext::be_u32_bytes(self.length))
    }

    open spec fn optional_spec(&self) -> Option<Seq<u8>> {
        Some(Seq::<u8>::empty())
    }

    open spec fn accepts(data_len: nat) -> bool {
        data_len == 9
    }

    open spec fn fits_capacity(data_len: nat, opt_len: nat) -> bool {
        true
    }

    open spec fn decoded_from(&self, data: Seq<u8>, opt: Seq<u8>) -> bool {
        &&& data.len() == 9
        &&& self.memory_type == MemoryType::from_byte_spec(data[0])
        &&& self.address == wire::be_u32_at(data, 1)
        &&& self.length == wire::be_u32_at(data, 5)
    }

    fn from_data(data_slice: &[u8], optional_slice: &[u8]) -> (ret: Option<Self>) {
        if data_slice.len() != 9 {
            return None;
        }
        let memory_type = MemoryType::from(data_slice[0]);
        let address = read_u32_be(data_slice, 1);
        let length = read_u32_be(data_slice, 5);
        Some(CoRdMemAddress { memory_type, address, length })
    }

    fn to_data(&self) -> (ret: MaxArray<u8, DATA_AFTER_CODE_LENGTH>) {
        let mut ret: MaxArray<u8, DATA_AFTER_CODE_LENGTH> = MaxArray::new();
        let memory_type = &self.memory_type;
        let address = &self.address;
        let length = &self.length;
        ret.push(u8::from(*memory_type)).unwrap();
        ret.push_u32_be(*address).unwrap();
        ret.push_u32_be(*length).unwrap();
        ret
    }

    fn to_optional_data(&self) -> (ret: Option<MaxArray<u8, MAX_OPTIONAL_LENGTH>>) {
        let mut ret: MaxArray<u8, MAX_OPTIONAL_LENGTH> = MaxArray::new();
        Some(ret)
    }

    open spec fn round_trips(&self) -> bool {
        MemoryType::from_byte_spec(self.memory_type.to_byte_spec()) == self.memory_type
    }

    proof fn lemma_encoded_decodes(&self) {
        let d = self.data_spec();
        assert(d.len() == 9);
        assert(d[0] == self.memory_type.to_byte_spec());
        assert(d.subrange(1int, 5int) =~= max_array_ext::be_u32_bytes(self.address));
        wire::lemma_u32_roundtrip(self.address);
        assert(d.subrange(5int, 9int) =~= max_array_ext::be_u32_bytes(self.length));
        wire::lemma_u32_roundtrip(self.length);
    }

    open spec fn keeps_data(data: Seq<u8>) -> bool {
        true
    }

    proof fn lemma_decoded_encodes(&self, data: Seq<u8>, opt: Seq<u8>) {
        MemoryType::lemma_byte_roundtrip(data[0]);
        wire::lemma_u32_bytes_of(data.subrange(1int, 5int));
        wire::lemma_u32_bytes_of(data.subrange(5int, 9int));
        assert(self.data_spec() =~= data);
    }
}

/// Response data to [CommandData::CoRdSecurity] (deprecated in the protocol).
#[derive(Clone, Copy, Debug, PartialEq, Eq, Hash, PartialOrd, Ord)]
pub struct CoRdSecurity {
    pub security_level: u8,
    pub key: u32,
    pub rolling_code: u32,
}

impl ResponseData for CoRdSecurity {
    open spec fn data_spec(&self) -> Seq<u8> {
        ((Seq::<u8>::empty().push(self.security_level) + max_array_ext::be_u32_bytes(self.key)) + max_array_ext::be_u32_bytes(self.rolling_code))
    }

    open spec fn optional_spec(&self) -> Option<Seq<u8>> {
        Some(Seq::<u8>::empty())
    }

    open spec fn accepts(data_len: nat) -> bool {
        data_len == 9
    }

    open spec fn fits_capacity(data_len: nat, opt_len: nat) -> bool {
        true
    }

    open spec fn decoded_from(&self, data: Seq<u8>, opt: Seq<u8>) -> bool {
        &&& data.len() == 9
        &&& self.security_level == data[0]
        &&& self.key == wire::be_u32_at(data, 1)
        &&& self.rolling_code == wire::be_u32_at(data, 5)
    }

    fn from_data(data_slice: &[u8], optional_slice: &[u8]) -> (ret: Option<Self>) {
        if data_slice.len() != 9 {
            return None;
        }
        let security_level = data_slice[0];
        let key = read_u32_be(data_slice, 1);
        let rolling_code = read_u32_be(data_slice, 5);
        Some(CoRdSecurity { security_level, key, rolling_code })
    }

    fn to_data(&self) -> (ret: MaxArray<u8, DATA_AFTER_CODE_LENGTH>) {
        let mut ret: MaxArray<u8, DATA_AFTER_CODE_LENGTH> = MaxArray::new();
        let security_level = &self.security_level;
        let key = &self.key;
        let rolling_code = &self.rolling_code;
        ret.push(*security_level).unwrap();
        ret.push_u32_be(*key).unwrap();
        ret.push_u32_be(*rolling_code).unwrap();
        ret
    }

    fn to_optional_data(&self) -> (ret: Option<MaxArray<u8, MAX_OPTIONAL_LENGTH>>) {
        let mut ret: MaxArray<u8, MAX_OPTIONAL_LENGTH> = MaxArray::new();
        Some(ret)
    }

    open spec fn round_trips(&self) -> bool {
        true
    }

    proof fn lemma_encoded_decodes(&self) {
        let d = self.data_spec();
        assert(d.len() == 9);
        assert(d[0] == self.security_level);
        assert(d.subrange(1int, 5int) =~= max_array_ext::be_u32_bytes(self.key));
        wire::lemma_u32_roundtrip(self.key);
        assert(d.subrange(5int, 9int) =~= max_array_ext::be_u32_bytes(self.rolling_code));
        wire::lemma_u32_roundtrip(self.rolling_code);
    }

    open spec fn keeps_data(data: Seq<u8>) -> bool {
        true
    }

    proof fn lemma_decoded_encodes(&self, data: Seq<u8>, opt: Seq<u8>) {
        wire::lemma_u32_bytes_of(data.subrange(1int, 5int));
        wire::lemma_u32_bytes_of(data.subrange(5int, 9int));
        assert(self.data_spec() =~= data);
    }
}

/// Response data to [CommandData::CoRdLearnMode].
#[derive(Clone, Copy, Debug, PartialEq, Eq, Hash, PartialOrd, Ord)]
pub struct CoRdLearnMode {
    pub enabled: OneByteBoolean,
    pub opt_channel: Option<ChannelNumber>,
}

impl ResponseData for CoRdLearnMode {
    open spec fn data_spec(&self) -> Seq<u8> {
        Seq::<u8>::empty().push(self.enabled.to_byte_spec())
    }

    open spec fn optional_spec(&self) -> Option<Seq<u8>> {
        let s0 = Seq::<u8>::empty();
        let s1 = match self.opt_channel { Some(x) => s0.push(x.to_byte_spec()), None => s0 };
        Some(s1)
    }

    open spec fn accepts(data_len: nat) -> bool {
        data_len == 1
    }

    open spec fn fits_capacity(data_len: nat, opt_len: nat) -> bool {
        true
    }

    open spec fn decoded_from(&self, data: Seq<u8>, opt: Seq<u8>) -> bool {
        &&& data.len() == 1
        &&& self.enabled == OneByteBoolean::from_byte_spec(data[0])
        &&& self.opt_channel == (if opt.len() >= 1 { Some(ChannelNumber::from_byte_spec(opt[0])) } else { None })
    }

    fn from_data(data_slice: &[u8], optional_slice: &[u8]) -> (ret: Option<Self>) {
        if data_slice.len() != 1 {
            return None;
        }
        let enabled = OneByteBoolean::from(data_slice[0]);
        let opt_channel = if optional_slice.len() >= 1 {
            Some(ChannelNumber::from(optional_slice[0]))
        } else {
            None
        };
        Some(CoRdLearnMode { enabled, opt_channel })
    }

    fn to_data(&self) -> (ret: MaxArray<u8, DATA_AFTER_CODE_LENGTH>) {
        let mut ret: MaxArray<u8, DATA_AFTER_CODE_LENGTH> = MaxArray::new();
        let enabled = &self.enabled;
        ret.push(u8::from(*enabled)).unwrap();
        ret
    }

    fn to_optional_data(&self) -> (ret: Option<MaxArray<u8, MAX_OPTIONAL_LENGTH>>) {
        let mut ret: MaxArray<u8, MAX_OPTIONAL_LENGTH> = MaxArray::new();
        if let Some(x) = &self.opt_channel {
            ret.push(u8::from(*x)).unwrap();
        }
        Some(ret)
    }

    open spec fn round_trips(&self) -> bool {
        OneByteBoolean::from_byte_spec(self.enabled.to_byte_spec()) == self.enabled && (self.opt_channel matches Some(x) ==> ChannelNumber::from_byte_spec(x.to_byte_spec()) == x)
    }

    proof fn lemma_encoded_decodes(&self) {
        let d = self.data_spec();
        let o = self.optional_spec().unwrap();
        assert(d.len() == 1);
        assert(d[0] == self.enabled.to_byte_spec());
        if let Some(x) = self.opt_channel {
            assert(o[0] == x.to_byte_spec());
        }
    }

    open spec fn keeps_data(data: Seq<u8>) -> bool {
        true
    }

    proof fn lemma_decoded_encodes(&self, data: Seq<u8>, opt: Seq<u8>) {
        OneByteBoolean::lemma_byte_roundtrip(data[0]);
        assert(self.data_spec() =~= data);
    }
}

/// Response data to [CommandData::CoRdSecureDeviceByIndex] (deprecated in the protocol).
#[derive(Clone, Copy, Debug, PartialEq, Eq, Hash, PartialOrd, Ord)]
pub struct CoRdSecureDeviceByIndex {
    pub slf: u8,
    pub device_id: u32,
    pub opt_private_key: Option<[u32; 4]>,
    pub opt_rolling_code: Option<u32>,
    pub opt_psk: Option<[u32; 4]>,
    pub opt_teach_info: Option<u8>,
}

impl ResponseData for CoRdSecureDeviceByIndex {
    open spec fn data_spec(&self) -> Seq<u8> {
        (Seq::<u8>::empty().push(self.slf) + max_array_ext::be_u32_bytes(self.device_id))
    }

    open spec fn optional_spec(&self) -> Option<Seq<u8>> {
        let s0 = Seq::<u8>::empty();
        let s1 = match self.opt_private_key { Some(x) => (s0 + max_array_ext::be_u32_bytes(x[0]) + max_array_ext::be_u32_bytes(x[1]) + max_array_ext::be_u32_bytes(x[2]) + max_array_ext::be_u32_bytes(x[3])), None => s0 };
        let s2 = match self.opt_rolling_code { Some(x) => (s1 + wire::be_u24_bytes(x)), None => s1 };
        let s3 = match self.opt_psk { Some(x) => (s2 + max_array_ext::be_u32_bytes(x[0]) + max_array_ext::be_u32_bytes(x[1]) + max_array_ext::be_u32_bytes(x[2]) + max_array_ext::be_u32_bytes(x[3])), None => s2 };
        let s4 = match self.opt_teach_info { Some(x) => s3.push(x), None => s3 };
        if (self.opt_private_key is None && (self.opt_rolling_code is Some || self.opt_psk is Some || self.opt_teach_info is Some)) || (self.opt_rolling_code is None && (self.opt_psk is Some || self.opt_teach_info is Some)) || (self.opt_psk is None && (self.opt_teach_info is Some)) { None } else { Some(s4) }
    }

    open spec fn accepts(data_len: nat) -> bool {
        data_len == 5
    }

    open spec fn fits_capacity(data_len: nat, opt_len: nat) -> bool {
        true
    }

    open spec fn decoded_from(&self, data: Seq<u8>, opt: Seq<u8>) -> bool {
        &&& data.len() == 5
        &&& self.slf == data[0]
        &&& self.device_id == wire::be_u32_at(data, 1)
        &&& (if opt.len() >= 16 { self.opt_private_key matches Some(x) && x@ == wire::be_u32x4_at(opt, 0) } else { self.opt_private_key is None })
        &&& self.opt_rolling_code == (if opt.len() >= 19 { Some(wire::be_u24_at(opt, 16)) } else { None })
        &&& (if opt.len() >= 35 { self.opt_psk matches Some(x) && x@ == wire::be_u32x4_at(opt, 19) } else { self.opt_psk is None })
        &&& self.opt_teach_info == (if opt.len() >= 36 { Some(opt[35]) } else { None })
    }

    fn from_data(data_slice: &[u8], optional_slice: &[u8]) -> (ret: Option<Self>) {
        if data_slice.len() != 5 {
            return None;
        }
        let slf = data_slice[0];
        let device_id = read_u32_be(data_slice, 1);
        let opt_private_key = if optional_slice.len() >= 16 {
            Some(read_u32x4_be(optional_slice, 0))
        } else {
            None
        };
        let opt_rolling_code = if optional_slice.len() >= 19 {
            Some(read_u24_be(optional_slice, 16))
        } else {
            None
        };
        let opt_psk = if optional_slice.len() >= 35 {
            Some(read_u32x4_be(optional_slice, 19))
        } else {
            None
        };
        let opt_teach_info = if optional_slice.len() >= 36 {
            Some(optional_slice[35])
        } else {
            None
        };
        Some(CoRdSecureDeviceByIndex { slf, device_id, opt_private_key, opt_rolling_code, opt_psk, opt_teach_info })
    }

    fn to_data(&self) -> (ret: MaxArray<u8, DATA_AFTER_CODE_LENGTH>) {
        let mut ret: MaxArray<u8, DATA_AFTER_CODE_LENGTH> = MaxArray::new();
        let slf = &self.slf;
        let device_id = &self.device_id;
        ret.push(*slf).unwrap();
        ret.push_u32_be(*device_id).unwrap();
        ret
    }

    fn to_optional_data(&self) -> (ret: Option<MaxArray<u8, MAX_OPTIONAL_LENGTH>>) {
        let mut ret: MaxArray<u8, MAX_OPTIONAL_LENGTH> = MaxArray::new();
        if let Some(x) = &self.opt_private_key {
            ret.push_u32_be(x[0]).unwrap();
            ret.push_u32_be(x[1]).unwrap();
            ret.push_u32_be(x[2]).unwrap();
            ret.push_u32_be(x[3]).unwrap();
        } else if self.opt_rolling_code.is_some() || self.opt_psk.is_some() || self.opt_teach_info.is_some() {
            return None;
        }
        if let Some(x) = &self.opt_rolling_code {
            ret.push((*x >> 16u32) as u8).unwrap();
            ret.push((*x >> 8u32) as u8).unwrap();
            ret.push(*x as u8).unwrap();
        } else if self.opt_psk.is_some() || self.opt_teach_info.is_some() {
            return None;
        }
        if let Some(x) = &self.opt_psk {
            ret.push_u32_be(x[0]).unwrap();
            ret.push_u32_be(x[1]).unwrap();
            ret.push_u32_be(x[2]).unwrap();
            ret.push_u32_be(x[3]).unwrap();
        } else if self.opt_teach_info.is_some() {
            return None;
        }
        if let Some(x) = &self.opt_teach_info {
            ret.push(*x).unwrap();
        }
        Some(ret)
    }

    open spec fn round_trips(&self) -> bool {
        (self.opt_rolling_code matches Some(x) ==> x < 0x100_0000)
    }

    proof fn lemma_encoded_decodes(&self) {
        let d = self.data_spec();
        let o = self.optional_spec().unwrap();
        assert(d.len() == 5);
        assert(d[0] == self.slf);
        assert(d.subrange(1int, 5int) =~= max_array_ext::be_u32_bytes(self.device_id));
        wire::lemma_u32_roundtrip(self.device_id);
        if let Some(x) = self.opt_private_key {
            assert(o.subrange(0int, 4int) =~= max_array_ext::be_u32_bytes(x[0]));
            wire::lemma_u32_roundtrip(x[0]);
            assert(o.subrange(4int, 8int) =~= max_array_ext::be_u32_bytes(x[1]));
            wire::lemma_u32_roundtrip(x[1]);
            assert(o.subrange(8int, 12int) =~= max_array_ext::be_u32_bytes(x[2]));
            wire::lemma_u32_roundtrip(x[2]);
            assert(o.subrange(12int, 16int) =~= max_array_ext::be_u32_bytes(x[3]));
            wire::lemma_u32_roundtrip(x[3]);
            assert(x@ =~= wire::be_u32x4_at(o, 0));
        }
        if let Some(x) = self.opt_rolling_code {
            assert(o.subrange(16int, 19int) =~= wire::be_u24_bytes(x));
            wire::lemma_u24_roundtrip(x);
        }
        if let Some(x) = self.opt_psk {
            assert(o.subrange(19int, 23int) =~= max_array_ext::be_u32_bytes(x[0]));
            wire::lemma_u32_roundtrip(x[0]);
            assert(o.subrange(23int, 27int) =~= max_array_ext::be_u32_bytes(x[1]));
            wire::lemma_u32_roundtrip(x[1]);
            assert(o.subrange(27int, 31int) =~= max_array_ext::be_u32_bytes(x[2]));
            wire::lemma_u32_roundtrip(x[2]);
            assert(o.subrange(31int, 35int) =~= max_array_ext::be_u32_bytes(x[3]));
            wire::lemma_u32_roundtrip(x[3]);
            assert(x@ =~= wire::be_u32x4_at(o, 19));
        }
        if let Some(x) = self.opt_teach_info {
            assert(o[35] == x);
        }
    }

    open spec fn keeps_data(data: Seq<u8>) -> bool {
        true
    }

    proof fn lemma_decoded_encodes(&self, data: Seq<u8>, opt: Seq<u8>) {
        wire::lemma_u32_bytes_of(data.subrange(1int, 5int));
        assert(self.data_spec() =~= data);
    }
}

/// Response data to [CommandData::CoRdNumSecureDevices].
#[derive(Clone, Copy, Debug, PartialEq, Eq, Hash, PartialOrd, Ord)]
pub struct CoRdNumSecureDevices {
    pub number: u8,
}

impl ResponseData for CoRdNumSecureDevices {
    open spec fn data_spec(&self) -> Seq<u8> {
        Seq::<u8>::empty().push(self.number)
    }

    open spec fn optional_spec(&self) -> Option<Seq<u8>> {
        Some(Seq::<u8>::empty())
    }

    open spec fn accepts(data_len: nat) -> bool {
        data_len == 1
    }

    open spec fn fits_capacity(data_len: nat, opt_len: nat) -> bool {
        true
    }

    open spec fn decoded_from(&self, data: Seq<u8>, opt: Seq<u8>) -> bool {
        &&& data.len() == 1
        &&& self.number == data[0]
    }

    fn from_data(data_slice: &[u8], optional_slice: &[u8]) -> (ret: Option<Self>) {
        if data_slice.len() != 1 {
            return None;
        }
        let number = data_slice[0];
        Some(CoRdNumSecureDevices { number })
    }

    fn to_data(&self) -> (ret: MaxArray<u8, DATA_AFTER_CODE_LENGTH>) {
        let mut ret: MaxArray<u8, DATA_AFTER_CODE_LENGTH> = MaxArray::new();
        let number = &self.number;
        ret.push(*number).unwrap();
        ret
    }

    fn to_optional_data(&self) -> (ret: Option<MaxArray<u8, MAX_OPTIONAL_LENGTH>>) {
        let mut ret: MaxArray<u8, MAX_OPTIONAL_LENGTH> = MaxArray::new();
        Some(ret)
    }

    open spec fn round_trips(&self) -> bool {
        true
    }

    proof fn lemma_encoded_decodes(&self) {
        let d = self.data_spec();
        assert(d.len() == 1);
        assert(d[0] == self.number);
    }

    open spec fn keeps_data(data: Seq<u8>) -> bool {
        true
    }

    proof fn lemma_decoded_encodes(&self, data: Seq<u8>, opt: Seq<u8>) {
        assert(self.data_spec() =~= data);
    }
}

/// Response data to [CommandData::CoRdSecureDeviceById].
#[derive(Clone, Copy, Debug, PartialEq, Eq, Hash, PartialOrd, Ord)]
pub struct CoRdSecureDeviceById {
    pub slf: u8,
    pub opt_index: Option<u8>,
}

impl ResponseData for CoRdSecureDeviceById {
    open spec fn data_spec(&self) -> Seq<u8> {
        Seq::<u8>::empty().push(self.slf)
    }

    open spec fn optional_spec(&self) -> Option<Seq<u8>> {
        let s0 = Seq::<u8>::empty();
        let s1 = match self.opt_index { Some(x) => s0.push(x), None => s0 };
        Some(s1)
    }

    open spec fn accepts(data_len: nat) -> bool {
        data_len == 1
    }

    open spec fn fits_capacity(data_len: nat, opt_len: nat) -> bool {
        true
    }

    open spec fn decoded_from(&self, data: Seq<u8>, opt: Seq<u8>) -> bool {
        &&& data.len() == 1
        &&& self.slf == data[0]
        &&& self.opt_index == (if opt.len() >= 1 { Some(opt[0]) } else { None })
    }

    fn from_data(data_slice: &[u8], optional_slice: &[u8]) -> (ret: Option<Self>) {
        if data_slice.len() != 1 {
            return None;
        }
        let slf = data_slice[0];
        let opt_index = if optional_slice.len() >= 1 {
            Some(optional_slice[0])
        } else {
            None
        };
        Some(CoRdSecureDeviceById { slf, opt_index })
    }

    fn to_data(&self) -> (ret: MaxArray<u8, DATA_AFTER_CODE_LENGTH>) {
        let mut ret: MaxArray<u8, DATA_AFTER_CODE_LENGTH> = MaxArray::new();
        let slf = &self.slf;
        ret.push(*slf).unwrap();
        ret
    }

    fn to_optional_data(&self) -> (ret: Option<MaxArray<u8, MAX_OPTIONAL_LENGTH>>) {
        let mut ret: MaxArray<u8, MAX_OPTIONAL_LENGTH> = MaxArray::new();
        if let Some(x) = &self.opt_index {
            ret.push(*x).unwrap();
        }
        Some(ret)
    }

    open spec fn round_trips(&self) -> bool {
        true
    }

    proof fn lemma_encoded_decodes(&self) {
        let d = self.data_spec();
        let o = self.optional_spec().unwrap();
        assert(d.len() == 1);
        assert(d[0] == self.slf);
        if let Some(x) = self.opt_index {
            assert(o[0] == x);
        }
    }

    open spec fn keeps_data(data: Seq<u8>) -> bool {
        true
    }

    proof fn lemma_decoded_encodes(&self, data: Seq<u8>, opt: Seq<u8>) {
        assert(self.data_spec() =~= data);
    }
}

/// Response data to [CommandData::CoRdSecureDevicePsk].
#[derive(Clone, Copy, Debug, PartialEq, Eq, Hash, PartialOrd, Ord)]
pub struct CoRdSecureDevicePsk {
    pub psk: [u32; 4],
}

impl ResponseData for CoRdSecureDevicePsk {
    open spec fn data_spec(&self) -> Seq<u8> {
        (Seq::<u8>::empty() + max_array_ext::be_u32_bytes(self.psk[0]) + max_array_ext::be_u32_bytes(self.psk[1]) + max_array_ext::be_u32_bytes(self.psk[2]) + max_array_ext::be_u32_bytes(self.psk[3]))
    }

    open spec fn optional_spec(&self) -> Option<Seq<u8>> {
        Some(Seq::<u8>::empty())
    }

    open spec fn accepts(data_len: nat) -> bool {
        data_len == 16
    }

    open spec fn fits_capacity(data_len: nat, opt_len: nat) -> bool {
        true
    }

    open spec fn decoded_from(&self, data: Seq<u8>, opt: Seq<u8>) -> bool {
        &&& data.len() == 16
        &&& self.psk@ == wire::be_u32x4_at(data, 0)
    }

    fn from_data(data_slice: &[u8], optional_slice: &[u8]) -> (ret: Option<Self>) {
        if data_slice.len() != 16 {
            return None;
        }
        let psk = read_u32x4_be(data_slice, 0);
        Some(CoRdSecureDevicePsk { psk })
    }

    fn to_data(&self) -> (ret: MaxArray<u8, DATA_AFTER_CODE_LENGTH>) {
        let mut ret: MaxArray<u8, DATA_AFTER_CODE_LENGTH> = MaxArray::new();
        let psk = &self.psk;
        ret.push_u32_be(psk[0]).unwrap();
        ret.push_u32_be(psk[1]).unwrap();
        ret.push_u32_be(psk[2]).unwrap();
        ret.push_u32_be(psk[3]).unwrap();
        ret
    }

    fn to_optional_data(&self) -> (ret: Option<MaxArray<u8, MAX_OPTIONAL_LENGTH>>) {
        let mut ret: MaxArray<u8, MAX_OPTIONAL_LENGTH> = MaxArray::new();
        Some(ret)
    }

    open spec fn round_trips(&self) -> bool {
        true
    }

    proof fn lemma_encoded_decodes(&self) {
        let d = self.data_spec();
        assert(d.len() == 16);
        assert(d.subrange(0int, 4int) =~= max_array_ext::be_u32_bytes(self.psk[0]));
        wire::lemma_u32_roundtrip(self.psk[0]);
        assert(d.subrange(4int, 8int) =~= max_array_ext::be_u32_bytes(self.psk[1]));
        wire::lemma_u32_roundtrip(self.psk[1]);
        assert(d.subrange(8int, 12int) =~= max_array_ext::be_u32_bytes(self.psk[2]));
        wire::lemma_u32_roundtrip(self.psk[2]);
        assert(d.subrange(12int, 16int) =~= max_array_ext::be_u32_bytes(self.psk[3]));
        wire::lemma_u32_roundtrip(self.psk[3]);
        assert(self.psk@ =~= wire::be_u32x4_at(d, 0));
    }

    open spec fn keeps_data(data: Seq<u8>) -> bool {
        true
    }

    proof fn lemma_decoded_encodes(&self, data: Seq<u8>, opt: Seq<u8>) {
        wire::lemma_u32_bytes_of(data.subrange(0int, 4int));
        wire::lemma_u32_bytes_of(data.subrange(4int, 8int));
        wire::lemma_u32_bytes_of(data.subrange(8int, 12int));
        wire::lemma_u32_bytes_of(data.subrange(12int, 16int));
        assert(self.data_spec() =~= data);
    }
}

/// Response data to [CommandData::CoRdDutyCycleLimit].
#[derive(Clone, Copy, Debug, PartialEq, Eq, Hash, PartialOrd, Ord)]
pub struct CoRdDutyCycleLimit {
    pub available: u8,
    pub slots: u8,
    pub slot_period: u16,
    pub actual_slot_left: u16,
    pub load_after_actual: u8,
}

impl ResponseData for CoRdDutyCycleLimit {
    open spec fn data_spec(&self) -> Seq<u8> {
        ((Seq::<u8>::empty().push(self.available).push(self.slots) + max_array_ext::be_u16_bytes(self.slot_period)) + max_array_ext::be_u16_bytes(self.actual_slot_left)).push(self.load_after_actual)
    }

    open spec fn optional_spec(&self) -> Option<Seq<u8>> {
        Some(Seq::<u8>::empty())
    }

    open spec fn accepts(data_len: nat) -> bool {
        data_len == 7
    }

    open spec fn fits_capacity(data_len: nat, opt_len: nat) -> bool {
        true
    }

    open spec fn decoded_from(&self, data: Seq<u8>, opt: Seq<u8>) -> bool {
        &&& data.len() == 7
        &&& self.available == data[0]
        &&& self.slots == data[1]
        &&& self.slot_period == wire::be_u16_at(data, 2)
        &&& self.actual_slot_left == wire::be_u16_at(data, 4)
        &&& self.load_after_actual == data[6]
    }

    fn from_data(data_slice: &[u8], optional_slice: &[u8]) -> (ret: Option<Self>) {
        if data_slice.len() != 7 {
            return None;
        }
        let available = data_slice[0];
        let slots = data_slice[1];
        let slot_period = read_u16_be(data_slice, 2);
        let actual_slot_left = read_u16_be(data_slice, 4);
        let load_after_actual = data_slice[6];
        Some(CoRdDutyCycleLimit { available, slots, slot_period, actual_slot_left, load_after_actual })
    }

    fn to_data(&self) -> (ret: MaxArray<u8, DATA_AFTER_CODE_LENGTH>) {
        let mut ret: MaxArray<u8, DATA_AFTER_CODE_LENGTH> = MaxArray::new();
        let available = &self.available;
        let slots = &self.slots;
        let slot_period = &self.slot_period;
        let actual_slot_left = &self.actual_slot_left;
        let load_after_actual = &self.load_after_actual;
        ret.push(*available).unwrap();
        ret.push(*slots).unwrap();
        ret.push_u16_be(*slot_period).unwrap();
        ret.push_u16_be(*actual_slot_left).unwrap();
        ret.push(*load_after_actual).unwrap();
        ret
    }

    fn to_optional_data(&self) -> (ret: Option<MaxArray<u8, MAX_OPTIONAL_LENGTH>>) {
        let mut ret: MaxArray<u8, MAX_OPTIONAL_LENGTH> = MaxArray::new();
        Some(ret)
    }

    open spec fn round_trips(&self) -> bool {
        true
    }

    proof fn lemma_encoded_decodes(&self) {
        let d = self.data_spec();
        assert(d.len() == 7);
        assert(d[0] == self.available);
        assert(d[1] == self.slots);
        assert(d.subrange(2int, 4int) =~= max_array_ext::be_u16_bytes(self.slot_period));
        wire::lemma_u16_roundtrip(self.slot_period);
        assert(d.subrange(4int, 6int) =~= max_array_ext::be_u16_bytes(self.actual_slot_left));
        wire::lemma_u16_roundtrip(self.actual_slot_left);
        assert(d[6] == self.load_after_actual);
    }

    open spec fn keeps_data(data: Seq<u8>) -> bool {
        true
    }

    proof fn lemma_decoded_encodes(&self, data: Seq<u8>, opt: Seq<u8>) {
        wire::lemma_u16_bytes_of(data.subrange(2int, 4int));
        wire::lemma_u16_bytes_of(data.subrange(4int, 6int));
        assert(self.data_spec() =~= data);
    }
}

/// Response data to [CommandData::CoGetFrequencyInfo].
#[derive(Clone, Copy, Debug, PartialEq, Eq, Hash, PartialOrd, Ord)]
pub struct CoGetFrequencyInfo {
    pub frequency: Frequency,
    pub protocol: Protocol,
}

impl ResponseData for CoGetFrequencyInfo {
    open spec fn data_spec(&self) -> Seq<u8> {
        Seq::<u8>::empty().push(self.frequency.to_byte_spec()).push(self.protocol.to_byte_spec())
    }

    open spec fn optional_spec(&self) -> Option<Seq<u8>> {
        Some(Seq::<u8>::empty())
    }

    open spec fn accepts(data_len: nat) -> bool {
        data_len == 2
    }

    open spec fn fits_capacity(data_len: nat, opt_len: nat) -> bool {
        true
    }

    open spec fn decoded_from(&self, data: Seq<u8>, opt: Seq<u8>) -> bool {
        &&& data.len() == 2
        &&& self.frequency == Frequency::from_byte_spec(data[0])
        &&& self.protocol == Protocol::from_byte_spec(data[1])
    }

    fn from_data(data_slice: &[u8], optional_slice: &[u8]) -> (ret: Option<Self>) {
        if data_slice.len() != 2 {
            return None;
        }
        let frequency = Frequency::from(data_slice[0]);
        let protocol = Protocol::from(data_slice[1]);
        Some(CoGetFrequencyInfo { frequency, protocol })
    }

    fn to_data(&self) -> (ret: MaxArray<u8, DATA_AFTER_CODE_LENGTH>) {
        let mut ret: MaxArray<u8, DATA_AFTER_CODE_LENGTH> = MaxArray::new();
        let frequency = &self.frequency;
        let protocol = &self.protocol;
        ret.push(u8::from(*frequency)).unwrap();
        ret.push(u8::from(*protocol)).unwrap();
        ret
    }

    fn to_optional_data(&self) -> (ret: Option<MaxArray<u8, MAX_OPTIONAL_LENGTH>>) {
        let mut ret: MaxArray<u8, MAX_OPTIONAL_LENGTH> = MaxArray::new();
        Some(ret)
    }

    open spec fn round_trips(&self) -> bool {
        Frequency::from_byte_spec(self.frequency.to_byte_spec()) == self.frequency && Protocol::from_byte_spec(self.protocol.to_byte_spec()) == self.protocol
    }

    proof fn lemma_encoded_decodes(&self) {
        let d = self.data_spec();
        assert(d.len() == 2);
        assert(d[0] == self.frequency.to_byte_spec());
        assert(d[1] == self.protocol.to_byte_spec());
    }

    open spec fn keeps_data(data: Seq<u8>) -> bool {
        true
    }

    proof fn lemma_decoded_encodes(&self, data: Seq<u8>, opt: Seq<u8>) {
        Frequency::lemma_byte_roundtrip(data[0]);
        Protocol::lemma_byte_roundtrip(data[1]);
        assert(self.data_spec() =~= data);
    }
}

/// Response data to [CommandData::CoGetStepCode].
#[derive(Clone, Copy, Debug, PartialEq, Eq, Hash, PartialOrd, Ord)]
pub struct CoGetStepCode {
    pub step_code: u8,
    pub status_code: u8,
}

impl ResponseData for CoGetStepCode {
    open spec fn data_spec(&self) -> Seq<u8> {
        Seq::<u8>::empty().push(self.step_code).push(self.status_code)
    }

    open spec fn optional_spec(&self) -> Option<Seq<u8>> {
        Some(Seq::<u8>::empty())
    }

    open spec fn accepts(data_len: nat) -> bool {
        data_len == 2
    }

    open spec fn fits_capacity(data_len: nat, opt_len: nat) -> bool {
        true
    }

    open spec fn decoded_from(&self, data: Seq<u8>, opt: Seq<u8>) -> bool {
        &&& data.len() == 2
        &&& self.step_code == data[0]
        &&& self.status_code == data[1]
    }

    fn from_data(data_slice: &[u8], optional_slice: &[u8]) -> (ret: Option<Self>) {
        if data_slice.len() != 2 {
            return None;
        }
        let step_code = data_slice[0];
        let status_code = data_slice[1];
        Some(CoGetStepCode { step_code, status_code })
    }

    fn to_data(&self) -> (ret: MaxArray<u8, DATA_AFTER_CODE_LENGTH>) {
        let mut ret: MaxArray<u8, DATA_AFTER_CODE_LENGTH> = MaxArray::new();
        let step_code = &self.step_code;
        let status_code = &self.status_code;
        ret.push(*step_code).unwrap();
        ret.push(*status_code).unwrap();
        ret
    }

    fn to_optional_data(&self) -> (ret: Option<MaxArray<u8, MAX_OPTIONAL_LENGTH>>) {
        let mut ret: MaxArray<u8, MAX_OPTIONAL_LENGTH> = MaxArray::new();
        Some(ret)
    }

    open spec fn round_trips(&self) -> bool {
        true
    }

    proof fn lemma_encoded_decodes(&self) {
        let d = self.data_spec();
        assert(d.len() == 2);
        assert(d[0] == self.step_code);
        assert(d[1] == self.status_code);
    }

    open spec fn keeps_data(data: Seq<u8>) -> bool {
        true
    }

    proof fn lemma_decoded_encodes(&self, data: Seq<u8>, opt: Seq<u8>) {
        assert(self.data_spec() =~= data);
    }
}

/// Response data to [CommandData::CoRdReManRepeating].
#[derive(Clone, Copy, Debug, PartialEq, Eq, Hash, PartialOrd, Ord)]
pub struct CoRdReManRepeating {
    pub re_man_telegrams_repeated: OneByteBoolean,
}

impl ResponseData for CoRdReManRepeating {
    open spec fn data_spec(&self) -> Seq<u8> {
        Seq::<u8>::empty().push(self.re_man_telegrams_repeated.to_byte_spec())
    }

    open spec fn optional_spec(&self) -> Option<Seq<u8>> {
        Some(Seq::<u8>::empty())
    }

    open spec fn accepts(data_len: nat) -> bool {
        data_len == 1
    }

    open spec fn fits_capacity(data_len: nat, opt_len: nat) -> bool {
        true
    }

    open spec fn decoded_from(&self, data: Seq<u8>, opt: Seq<u8>) -> bool {
        &&& data.len() == 1
        &&& self.re_man_telegrams_repeated == OneByteBoolean::from_byte_spec(data[0])
    }

    fn from_data(data_slice: &[u8], optional_slice: &[u8]) -> (ret: Option<Self>) {
        if data_slice.len() != 1 {
            return None;
        }
        let re_man_telegrams_repeated = OneByteBoolean::from(data_slice[0]);
        Some(CoRdReManRepeating { re_man_telegrams_repeated })
    }

    fn to_data(&self) -> (ret: MaxArray<u8, DATA_AFTER_CODE_LENGTH>) {
        let mut ret: MaxArray<u8, DATA_AFTER_CODE_LENGTH> = MaxArray::new();
        let re_man_telegrams_repeated = &self.re_man_telegrams_repeated;
        ret.push(u8::from(*re_man_telegrams_repeated)).unwrap();
        ret
    }

    fn to_optional_data(&self) -> (ret: Option<MaxArray<u8, MAX_OPTIONAL_LENGTH>>) {
        let mut ret: MaxArray<u8, MAX_OPTIONAL_LENGTH> = MaxArray::new();
        Some(ret)
    }

    open spec fn round_trips(&self) -> bool {
        OneByteBoolean::from_byte_spec(self.re_man_telegrams_repeated.to_byte_spec()) == self.re_man_telegrams_repeated
    }

    proof fn lemma_encoded_decodes(&self) {
        let d = self.data_spec();
        assert(d.len() == 1);
        assert(d[0] == self.re_man_telegrams_repeated.to_byte_spec());
    }

    open spec fn keeps_data(data: Seq<u8>) -> bool {
        true
    }

    proof fn lemma_decoded_encodes(&self, data: Seq<u8>, opt: Seq<u8>) {
        OneByteBoolean::lemma_byte_roundtrip(data[0]);
        assert(self.data_spec() =~= data);
    }
}

/// Response data to [CommandData::CoGetNoiseThreshold].
#[derive(Clone, Copy, Debug, PartialEq, Eq, Hash, PartialOrd, Ord)]
pub struct CoGetNoiseThreshold {
    pub rssi_level: u8,
}

impl ResponseData for CoGetNoiseThreshold {
    open spec fn data_spec(&self) -> Seq<u8> {
        Seq::<u8>::empty().push(self.rssi_level)
    }

    open spec fn optional_spec(&self) -> Option<Seq<u8>> {
        Some(Seq::<u8>::empty())
    }

    open spec fn accepts(data_len: nat) -> bool {
        data_len == 1
    }

    open spec fn fits_capacity(data_len: nat, opt_len: nat) -> bool {
        true
    }

    open spec fn decoded_from(&self, data: Seq<u8>, opt: Seq<u8>) -> bool {
        &&& data.len() == 1
        &&& self.rssi_level == data[0]
    }

    fn from_data(data_slice: &[u8], optional_slice: &[u8]) -> (ret: Option<Self>) {
        if data_slice.len() != 1 {
            return None;
        }
        let rssi_level = data_slice[0];
        Some(CoGetNoiseThreshold { rssi_level })
    }

    fn to_data(&self) -> (ret: MaxArray<u8, DATA_AFTER_CODE_LENGTH>) {
        let mut ret: MaxArray<u8, DATA_AFTER_CODE_LENGTH> = MaxArray::new();
        let rssi_level = &self.rssi_level;
        ret.push(*rssi_level).unwrap();
        ret
    }

    fn to_optional_data(&self) -> (ret: Option<MaxArray<u8, MAX_OPTIONAL_LENGTH>>) {
        let mut ret: MaxArray<u8, MAX_OPTIONAL_LENGTH> = MaxArray::new();
        Some(ret)
    }

    open spec fn round_trips(&self) -> bool {
        true
    }

    proof fn lemma_encoded_decodes(&self) {
        let d = self.data_spec();
        assert(d.len() == 1);
        assert(d[0] == self.rssi_level);
    }

    open spec fn keeps_data(data: Seq<u8>) -> bool {
        true
    }

    proof fn lemma_decoded_encodes(&self, data: Seq<u8>, opt: Seq<u8>) {
        assert(self.data_spec() =~= data);
    }
}

/// Response data to [CommandData::CoRdSecureDeviceV2ByIndex].
#[derive(Clone, Copy, Debug, PartialEq, Eq, Hash, PartialOrd, Ord)]
pub struct CoRdSecureDeviceV2ByIndex {
    pub slf: u8,
    pub device_id: u32,
    pub private_key: [u32; 4],
    pub rolling_code: u32,
    pub teach_info: u8,
    pub opt_psk: Option<[u32; 4]>,
}

impl ResponseData for CoRdSecureDeviceV2ByIndex {
    open spec fn data_spec(&self) -> Seq<u8> {
        (((Seq::<u8>::empty().push(self.slf) + max_array_ext::be_u32_bytes(self.device_id)) + max_array_ext::be_u32_bytes(self.private_key[0]) + max_array_ext::be_u32_bytes(self.private_key[1]) + max_array_ext::be_u32_bytes(self.private_key[2]) + max_array_ext::be_u32_bytes(self.private_key[3])) + max_array_ext::be_u32_bytes(self.rolling_code)).push(self.teach_info)
    }

    open spec fn optional_spec(&self) -> Option<Seq<u8>> {
        let s0 = Seq::<u8>::empty();
        let s1 = match self.opt_psk { Some(x) => (s0 + max_array_ext::be_u32_bytes(x[0]) + max_array_ext::be_u32_bytes(x[1]) + max_array_ext::be_u32_bytes(x[2]) + max_array_ext::be_u32_bytes(x[3])), None => s0 };
        Some(s1)
    }

    open spec fn accepts(data_len: nat) -> bool {
        data_len == 26
    }

    open spec fn fits_capacity(data_len: nat, opt_len: nat) -> bool {
        true
    }

    open spec fn decoded_from(&self, data: Seq<u8>, opt: Seq<u8>) -> bool {
        &&& data.len() == 26
        &&& self.slf == data[0]
        &&& self.device_id == wire::be_u32_at(data, 1)
        &&& self.private_key@ == wire::be_u32x4_at(data, 5)
        &&& self.rolling_code == wire::be_u32_at(data, 21)
        &&& self.teach_info == data[25]
        &&& (if opt.len() >= 16 { self.opt_psk matches Some(x) && x@ == wire::be_u32x4_at(opt, 0) } else { self.opt_psk is None })
    }

    fn from_data(data_slice: &[u8], optional_slice: &[u8]) -> (ret: Option<Self>) {
        if data_slice.len() != 26 {
            return None;
        }
        let slf = data_slice[0];
        let device_id = read_u32_be(data_slice, 1);
        let private_key = read_u32x4_be(data_slice, 5);
        let rolling_code = read_u32_be(data_slice, 21);
        let teach_info = data_slice[25];
        let opt_psk = if optional_slice.len() >= 16 {
            Some(read_u32x4_be(optional_slice, 0))
        } else {
            None
        };
        Some(CoRdSecureDeviceV2ByIndex { slf, device_id, private_key, rolling_code, teach_info, opt_psk })
    }

    fn to_data(&self) -> (ret: MaxArray<u8, DATA_AFTER_CODE_LENGTH>) {
        let mut ret: MaxArray<u8, DATA_AFTER_CODE_LENGTH> = MaxArray::new();
        let slf = &self.slf;
        let device_id = &self.device_id;
        let private_key = &self.private_key;
        let rolling_code = &self.rolling_code;
        let teach_info = &self.teach_info;
        ret.push(*slf).unwrap();
        ret.push_u32_be(*device_id).unwrap();
        ret.push_u32_be(private_key[0]).unwrap();
        ret.push_u32_be(private_key[1]).unwrap();
        ret.push_u32_be(private_key[2]).unwrap();
        ret.push_u32_be(private_key[3]).unwrap();
        ret.push_u32_be(*rolling_code).unwrap();
        ret.push(*teach_info).unwrap();
        ret
    }

    fn to_optional_data(&self) -> (ret: Option<MaxArray<u8, MAX_OPTIONAL_LENGTH>>) {
        let mut ret: MaxArray<u8, MAX_OPTIONAL_LENGTH> = MaxArray::new();
        if let Some(x) = &self.opt_psk {
            ret.push_u32_be(x[0]).unwrap();
            ret.push_u32_be(x[1]).unwrap();
            ret.push_u32_be(x[2]).unwrap();
            ret.push_u32_be(x[3]).unwrap();
        }
        Some(ret)
    }

    open spec fn round_trips(&self) -> bool {
        true
    }

    proof fn lemma_encoded_decodes(&self) {
        let d = self.data_spec();
        let o = self.optional_spec().unwrap();
        assert(d.len() == 26);
        assert(d[0] == self.slf);
        assert(d.subrange(1int, 5int) =~= max_array_ext::be_u32_bytes(self.device_id));
        wire::lemma_u32_roundtrip(self.device_id);
        assert(d.subrange(5int, 9int) =~= max_array_ext::be_u32_bytes(self.private_key[0]));
        wire::lemma_u32_roundtrip(self.private_key[0]);
        assert(d.subrange(9int, 13int) =~= max_array_ext::be_u32_bytes(self.private_key[1]));
        wire::lemma_u32_roundtrip(self.private_key[1]);
        assert(d.subrange(13int, 17int) =~= max_array_ext::be_u32_bytes(self.private_key[2]));
        wire::lemma_u32_roundtrip(self.private_key[2]);
        assert(d.subrange(17int, 21int) =~= max_array_ext::be_u32_bytes(self.private_key[3]));
        wire::lemma_u32_roundtrip(self.private_key[3]);
        assert(self.private_key@ =~= wire::be_u32x4_at(d, 5));
        assert(d.subrange(21int, 25int) =~= max_array_ext::be_u32_bytes(self.rolling_code));
        wire::lemma_u32_roundtrip(self.rolling_code);
        assert(d[25] == self.teach_info);
        if let Some(x) = self.opt_psk {
            assert(o.subrange(0int, 4int) =~= max_array_ext::be_u32_bytes(x[0]));
            wire::lemma_u32_roundtrip(x[0]);
            assert(o.subrange(4int, 8int) =~= max_array_ext::be_u32_bytes(x[1]));
            wire::lemma_u32_roundtrip(x[1]);
            assert(o.subrange(8int, 12int) =~= max_array_ext::be_u32_bytes(x[2]));
            wire::lemma_u32_roundtrip(x[2]);
            assert(o.subrange(12int, 16int) =~= max_array_ext::be_u32_bytes(x[3]));
            wire::lemma_u32_roundtrip(x[3]);
            assert(x@ =~= wire::be_u32x4_at(o, 0));
        }
    }

    open spec fn keeps_data(data: Seq<u8>) -> bool {
        true
    }

    proof fn lemma_decoded_encodes(&self, data: Seq<u8>, opt: Seq<u8>) {
        wire::lemma_u32_bytes_of(data.subrange(1int, 5int));
        wire::lemma_u32_bytes_of(data.subrange(5int, 9int));
        wire::lemma_u32_bytes_of(data.subrange(9int, 13int));
        wire::lemma_u32_bytes_of(data.subrange(13int, 17int));
        wire::lemma_u32_bytes_of(data.subrange(17int, 21int));
        wire::lemma_u32_bytes_of(data.subrange(21int, 25int));
        assert(self.data_spec() =~= data);
    }
}

/// Response data to [CommandData::CoRdRssiTestMode] and [CommandData::CoRdTransparentMode].
#[derive(Clone, Copy, Debug, PartialEq, Eq, Hash, PartialOrd, Ord)]
pub struct OneByteBooleanResponseData {
    pub enabled: OneByteBoolean,
}

impl ResponseData for OneByteBooleanResponseData {
    open spec fn data_spec(&self) -> Seq<u8> {
        Seq::<u8>::empty().push(self.enabled.to_byte_spec())
    }

    open spec fn optional_spec(&self) -> Option<Seq<u8>> {
        Some(Seq::<u8>::empty())
    }

    open spec fn accepts(data_len: nat) -> bool {
        data_len == 1
    }

    open spec fn fits_capacity(data_len: nat, opt_len: nat) -> bool {
        true
    }

    open spec fn decoded_from(&self, data: Seq<u8>, opt: Seq<u8>) -> bool {
        &&& data.len() == 1
        &&& self.enabled == OneByteBoolean::from_byte_spec(data[0])
    }

    fn from_data(data_slice: &[u8], optional_slice: &[u8]) -> (ret: Option<Self>) {
        if data_slice.len() != 1 {
            return None;
        }
        let enabled = OneByteBoolean::from(data_slice[0]);
        Some(OneByteBooleanResponseData { enabled })
    }

    fn to_data(&self) -> (ret: MaxArray<u8, DATA_AFTER_CODE_LENGTH>) {
        let mut ret: MaxArray<u8, DATA_AFTER_CODE_LENGTH> = MaxArray::new();
        let enabled = &self.enabled;
        ret.push(u8::from(*enabled)).unwrap();
        ret
    }

    fn to_optional_data(&self) -> (ret: Option<MaxArray<u8, MAX_OPTIONAL_LENGTH>>) {
        let mut ret: MaxArray<u8, MAX_OPTIONAL_LENGTH> = MaxArray::new();
        Some(ret)
    }

    open spec fn round_trips(&self) -> bool {
        OneByteBoolean::from_byte_spec(self.enabled.to_byte_spec()) == self.enabled
    }

    proof fn lemma_encoded_decodes(&self) {
        let d = self.data_spec();
        assert(d.len() == 1);
        assert(d[0] == self.enabled.to_byte_spec());
    }

    open spec fn keeps_data(data: Seq<u8>) -> bool {
        true
    }

    proof fn lemma_decoded_encodes(&self, data: Seq<u8>, opt: Seq<u8>) {
        OneByteBoolean::lemma_byte_roundtrip(data[0]);
        assert(self.data_spec() =~= data);
    }
}

/// Response data to [CommandData::CoRdSecureDeviceMaintenanceKey].
#[derive(Clone, Copy, Debug, PartialEq, Eq, Hash, PartialOrd, Ord)]
pub struct CoRdSecureDeviceMaintenanceKey {
    pub device_id: u32,
    pub private_key: [u32; 4],
    pub key_number: u8,
    pub inbound_rolling_code: u32,
    pub outbound_rolling_code: u32,
}

impl ResponseData for CoRdSecureDeviceMaintenanceKey {
    open spec fn data_spec(&self) -> Seq<u8> {
        ((((Seq::<u8>::empty() + max_array_ext::be_u32_bytes(self.device_id)) + max_array_ext::be_u32_bytes(self.private_key[0]) + max_array_ext::be_u32_bytes(self.private_key[1]) + max_array_ext::be_u32_bytes(self.private_key[2]) + max_array_ext::be_u32_bytes(self.private_key[3])).push(self.key_number) + max_array_ext::be_u32_bytes(self.inbound_rolling_code)) + max_array_ext::be_u32_bytes(self.outbound_rolling_code))
    }

    open spec fn optional_spec(&self) -> Option<Seq<u8>> {
        Some(Seq::<u8>::empty())
    }

    open spec fn accepts(data_len: nat) -> bool {
        data_len == 29
    }

    open spec fn fits_capacity(data_len: nat, opt_len: nat) -> bool {
        true
    }

    open spec fn decoded_from(&self, data: Seq<u8>, opt: Seq<u8>) -> bool {
        &&& data.len() == 29
        &&& self.device_id == wire::be_u32_at(data, 0)
        &&& self.private_key@ == wire::be_u32x4_at(data, 4)
        &&& self.key_number == data[20]
        &&& self.inbound_rolling_code == wire::be_u32_at(data, 21)
        &&& self.outbound_rolling_code == wire::be_u32_at(data, 25)
    }

    fn from_data(data_slice: &[u8], optional_slice: &[u8]) -> (ret: Option<Self>) {
        if data_slice.len() != 29 {
            return None;
        }
        let device_id = read_u32_be(data_slice, 0);
        let private_key = read_u32x4_be(data_slice, 4);
        let key_number = data_slice[20];
        let inbound_rolling_code = read_u32_be(data_slice, 21);
        let outbound_rolling_code = read_u32_be(data_slice, 25);
        Some(CoRdSecureDeviceMaintenanceKey { device_id, private_key, key_number, inbound_rolling_code, outbound_rolling_code })
    }

    fn to_data(&self) -> (ret: MaxArray<u8, DATA_AFTER_CODE_LENGTH>) {
        let mut ret: MaxArray<u8, DATA_AFTER_CODE_LENGTH> = MaxArray::new();
        let device_id = &self.device_id;
        let private_key = &self.private_key;
        let key_number = &self.key_number;
        let inbound_rolling_code = &self.inbound_rolling_code;
        let outbound_rolling_code = &self.outbound_rolling_code;
        ret.push_u32_be(*device_id).unwrap();
        ret.push_u32_be(private_key[0]).unwrap();
        ret.push_u32_be(private_key[1]).unwrap();
        ret.push_u32_be(private_key[2]).unwrap();
        ret.push_u32_be(private_key[3]).unwrap();
        ret.push(*key_number).unwrap();
        ret.push_u32_be(*inbound_rolling_code).unwrap();
        ret.push_u32_be(*outbound_rolling_code).unwrap();
        ret
    }

    fn to_optional_data(&self) -> (ret: Option<MaxArray<u8, MAX_OPTIONAL_LENGTH>>) {
        let mut ret: MaxArray<u8, MAX_OPTIONAL_LENGTH> = MaxArray::new();
        Some(ret)
    }

    open spec fn round_trips(&self) -> bool {
        true
    }

    proof fn lemma_encoded_decodes(&self) {
        let d = self.data_spec();
        assert(d.len() == 29);
        assert(d.subrange(0int, 4int) =~= max_array_ext::be_u32_bytes(self.device_id));
        wire::lemma_u32_roundtrip(self.device_id);
        assert(d.subrange(4int, 8int) =~= max_array_ext::be_u32_bytes(self.private_key[0]));
        wire::lemma_u32_roundtrip(self.private_key[0]);
        assert(d.subrange(8int, 12int) =~= max_array_ext::be_u32_bytes(self.private_key[1]));
        wire::lemma_u32_roundtrip(self.private_key[1]);
        assert(d.subrange(12int, 16int) =~= max_array_ext::be_u32_bytes(self.private_key[2]));
        wire::lemma_u32_roundtrip(self.private_key[2]);
        assert(d.subrange(16int, 20int) =~= max_array_ext::be_u32_bytes(self.private_key[3]));
        wire::lemma_u32_roundtrip(self.private_key[3]);
        assert(self.private_key@ =~= wire::be_u32x4_at(d, 4));
        assert(d[20] == self.key_number);
        assert(d.subrange(21int, 25int) =~= max_array_ext::be_u32_bytes(self.inbound_rolling_code));
        wire::lemma_u32_roundtrip(self.inbound_rolling_code);
        assert(d.subrange(25int, 29int) =~= max_array_ext::be_u32_bytes(self.outbound_rolling_code));
        wire::lemma_u32_roundtrip(self.outbound_rolling_code);
    }

    open spec fn keeps_data(data: Seq<u8>) -> bool {
        true
    }

    proof fn lemma_decoded_encodes(&self, data: Seq<u8>, opt: Seq<u8>) {
        wire::lemma_u32_bytes_of(data.subrange(0int, 4int));
        wire::lemma_u32_bytes_of(data.subrange(4int, 8int));
        wire::lemma_u32_bytes_of(data.subrange(8int, 12int));
        wire::lemma_u32_bytes_of(data.subrange(12int, 16int));
        wire::lemma_u32_bytes_of(data.subrange(16int, 20int));
        wire::lemma_u32_bytes_of(data.subrange(21int, 25int));
        wire::lemma_u32_bytes_of(data.subrange(25int, 29int));
        assert(self.data_spec() =~= data);
    }
}

/// Response data to [CommandData::CoRdTxOnlyMode].
#[derive(Clone, Copy, Debug, PartialEq, Eq, Hash, PartialOrd, Ord)]
pub struct CoRdTxOnlyMode {
    pub mode: TxOnlyMode,
}

impl ResponseData for CoRdTxOnlyMode {
    open spec fn data_spec(&self) -> Seq<u8> {
        Seq::<u8>::empty().push(self.mode.to_byte_spec())
    }

    open spec fn optional_spec(&self) -> Option<Seq<u8>> {
        Some(Seq::<u8>::empty())
    }

    open spec fn accepts(data_len: nat) -> bool {
        data_len == 1
    }

    open spec fn fits_capacity(data_len: nat, opt_len: nat) -> bool {
        true
    }

    open spec fn decoded_from(&self, data: Seq<u8>, opt: Seq<u8>) -> bool {
        &&& data.len() == 1
        &&& self.mode == TxOnlyMode::from_byte_spec(data[0])
    }

    fn from_data(data_slice: &[u8], optional_slice: &[u8]) -> (ret: Option<Self>) {
        if data_slice.len() != 1 {
            return None;
        }
        let mode = TxOnlyMode::from(data_slice[0]);
        Some(CoRdTxOnlyMode { mode })
    }

    fn to_data(&self) -> (ret: MaxArray<u8, DATA_AFTER_CODE_LENGTH>) {
        let mut ret: MaxArray<u8, DATA_AFTER_CODE_LENGTH> = MaxArray::new();
        let mode = &self.mode;
        ret.push(u8::from(*mode)).unwrap();
        ret
    }

    fn to_optional_data(&self) -> (ret: Option<MaxArray<u8, MAX_OPTIONAL_LENGTH>>) {
        let mut ret: MaxArray<u8, MAX_OPTIONAL_LENGTH> = MaxArray::new();
        Some(ret)
    }

    open spec fn round_trips(&self) -> bool {
        TxOnlyMode::from_byte_spec(self.mode.to_byte_spec()) == self.mode
    }

    proof fn lemma_encoded_decodes(&self) {
        let d = self.data_spec();
        assert(d.len() == 1);
        assert(d[0] == self.mode.to_byte_spec());
    }

    open spec fn keeps_data(data: Seq<u8>) -> bool {
        true
    }

    proof fn lemma_decoded_encodes(&self, data: Seq<u8>, opt: Seq<u8>) {
        TxOnlyMode::lemma_byte_roundtrip(data[0]);
        assert(self.data_spec() =~= data);
    }
}

/// Response data to [SmartAckData::SaRdLearnMode]. Its encoding writes the `enabled` byte twice.
#[derive(Clone, Copy, Debug, PartialEq, Eq, Hash, PartialOrd, Ord)]
pub struct SaRdLearnMode {
    pub enabled: OneByteBoolean,
    pub extended: ExtendedLearnMode,
}

impl ResponseData for SaRdLearnMode {
    open spec fn data_spec(&self) -> Seq<u8> {
        Seq::<u8>::empty().push(self.enabled.to_byte_spec()).push(self.enabled.to_byte_spec())
    }

    open spec fn optional_spec(&self) -> Option<Seq<u8>> {
        Some(Seq::<u8>::empty())
    }

    open spec fn accepts(data_len: nat) -> bool {
        data_len == 2
    }

    open spec fn fits_capacity(data_len: nat, opt_len: nat) -> bool {
        true
    }

    open spec fn decoded_from(&self, data: Seq<u8>, opt: Seq<u8>) -> bool {
        &&& data.len() == 2
        &&& self.enabled == OneByteBoolean::from_byte_spec(data[0])
        &&& self.extended == ExtendedLearnMode::from_byte_spec(data[1])
    }

    fn from_data(data_slice: &[u8], optional_slice: &[u8]) -> (ret: Option<Self>) {
        if data_slice.len() != 2 {
            return None;
        }
        let enabled = OneByteBoolean::from(data_slice[0]);
        let extended = ExtendedLearnMode::from(data_slice[1]);
        Some(SaRdLearnMode { enabled, extended })
    }

    fn to_data(&self) -> (ret: MaxArray<u8, DATA_AFTER_CODE_LENGTH>) {
        let mut ret: MaxArray<u8, DATA_AFTER_CODE_LENGTH> = MaxArray::new();
        let enabled = &self.enabled;
        ret.push(u8::from(*enabled)).unwrap();
        ret.push(u8::from(*enabled)).unwrap();
        ret
    }

    fn to_optional_data(&self) -> (ret: Option<MaxArray<u8, MAX_OPTIONAL_LENGTH>>) {
        let mut ret: MaxArray<u8, MAX_OPTIONAL_LENGTH> = MaxArray::new();
        Some(ret)
    }

    open spec fn round_trips(&self) -> bool {
        OneByteBoolean::from_byte_spec(self.enabled.to_byte_spec()) == self.enabled && ExtendedLearnMode::from_byte_spec(self.enabled.to_byte_spec()) == self.extended
    }

    proof fn lemma_encoded_decodes(&self) {
        let d = self.data_spec();
        assert(d.len() == 2);
        assert(d[0] == self.enabled.to_byte_spec());
        assert(d[1] == self.enabled.to_byte_spec());
    }

    open spec fn keeps_data(data: Seq<u8>) -> bool {
        data[1] == data[0]
    }

    proof fn lemma_decoded_encodes(&self, data: Seq<u8>, opt: Seq<u8>) {
        OneByteBoolean::lemma_byte_roundtrip(data[0]);
        ExtendedLearnMode::lemma_byte_roundtrip(data[1]);
        assert(self.data_spec() =~= data);
    }
}

/// Response data to [SmartAckData::SaRdLearnedClients].
#[derive(Clone, Debug, PartialEq, Eq, Hash, PartialOrd, Ord)]
pub struct SaRdLearnedClients {
    pub learned_clients: MaxArray<LearnedClient, MAX_LEARNED_CLIENTS>,
}

/// The bytes of a list of learned clients hold nine bytes per client, in order.
#[verifier::spinoff_prover]
proof fn lemma_learned_client_bytes(clients: Seq<LearnedClient>)
    ensures
        learned_client_bytes(clients).len() == 9 * clients.len(),
        forall|k: int|
            0 <= k < clients.len() ==> #[trigger] clients[k].mailbox_index == learned_client_bytes(clients)[9 * k + 8]
                && learned_client_bytes(clients).subrange(9 * k, 9 * k + 4) == max_array_ext::be_u32_bytes(clients[k].smart_ack_client_id)
                && learned_client_bytes(clients).subrange(9 * k + 4, 9 * k + 8) == max_array_ext::be_u32_bytes(clients[k].controller_id),
    decreases clients.len(),
{
    if clients.len() > 0 {
        lemma_learned_client_bytes(clients.drop_last());
        let prev = learned_client_bytes(clients.drop_last());
        let b = learned_client_bytes(clients);
        let n = clients.len() - 1;
        assert forall|k: int| 0 <= k < clients.len() implies #[trigger] clients[k].mailbox_index == b[9 * k + 8]
            && b.subrange(9 * k, 9 * k + 4) == max_array_ext::be_u32_bytes(clients[k].smart_ack_client_id)
            && b.subrange(9 * k + 4, 9 * k + 8) == max_array_ext::be_u32_bytes(clients[k].controller_id) by {
            if k < n {
                assert(clients.drop_last()[k] == clients[k]);
                assert(b[9 * k + 8] == prev[9 * k + 8]);
                assert(b.subrange(9 * k, 9 * k + 4) =~= prev.subrange(9 * k, 9 * k + 4));
                assert(b.subrange(9 * k + 4, 9 * k + 8) =~= prev.subrange(9 * k + 4, 9 * k + 8));
            } else {
                assert(clients.last() == clients[k]);
                assert(b[9 * k + 8] == clients[k].mailbox_index);
                assert(b.subrange(9 * k, 9 * k + 4) =~= max_array_ext::be_u32_bytes(clients[k].smart_ack_client_id));
                assert(b.subrange(9 * k + 4, 9 * k + 8) =~= max_array_ext::be_u32_bytes(clients[k].controller_id));
            }
        }
    }
}

/// Reading the learned clients from the bytes that encode them gives back the clients.
proof fn lemma_learned_clients_roundtrip(clients: Seq<LearnedClient>)
    ensures
        learned_client_bytes(clients).len() % 9 == 0,
        learned_clients_at(learned_client_bytes(clients)) == clients,
{
    lemma_learned_client_bytes(clients);
    let b = learned_client_bytes(clients);
    let r = learned_clients_at(b);
    assert(b.len() % 9 == 0 && b.len() / 9 == clients.len()) by (nonlinear_arith)
        requires
            b.len() == 9 * clients.len(),
    ;
    assert forall|k: int| 0 <= k < clients.len() implies #[trigger] r[k] == clients[k] by {
        assert(clients[k].mailbox_index == b[9 * k + 8]);
        wire::lemma_u32_roundtrip(clients[k].smart_ack_client_id);
        wire::lemma_u32_roundtrip(clients[k].controller_id);
        assert(b.subrange(9 * k, 9 * k + 4) == max_array_ext::be_u32_bytes(clients[k].smart_ack_client_id));
        assert(b.subrange(9 * k + 4, 9 * k + 8) == max_array_ext::be_u32_bytes(clients[k].controller_id));
    }
    assert(r =~= clients);
}

/// Encoding the learned clients stored in whole groups of nine bytes gives back those bytes.
proof fn lemma_learned_client_bytes_of(data: Seq<u8>)
    requires
        data.len() % 9 == 0,
    ensures
        learned_client_bytes(learned_clients_at(data)) == data,
{
    let clients = learned_clients_at(data);
    lemma_learned_client_bytes(clients);
    let b = learned_client_bytes(clients);
    assert(9 * clients.len() == data.len()) by (nonlinear_arith)
        requires
            data.len() % 9 == 0,
            clients.len() == data.len() / 9,
    ;
    assert forall|i: int| 0 <= i < data.len() implies #[trigger] b[i] == data[i] by {
        let k = i / 9;
        assert(0 <= k < clients.len() && 9 * k <= i < 9 * k + 9) by (nonlinear_arith)
            requires
                0 <= i < data.len(),
                k == i / 9,
                9 * clients.len() == data.len(),
        ;
        wire::lemma_u32_bytes_of(data.subrange(9 * k, 9 * k + 4));
        wire::lemma_u32_bytes_of(data.subrange(9 * k + 4, 9 * k + 8));
        assert(clients[k].mailbox_index == b[9 * k + 8]);
        if i < 9 * k + 4 {
            assert(b.subrange(9 * k, 9 * k + 4)[i - 9 * k] == b[i]);
            assert(data.subrange(9 * k, 9 * k + 4)[i - 9 * k] == data[i]);
        } else if i < 9 * k + 8 {
            assert(b.subrange(9 * k + 4, 9 * k + 8)[i - 9 * k - 4] == b[i]);
            assert(data.subrange(9 * k + 4, 9 * k + 8)[i - 9 * k - 4] == data[i]);
        }
    }
    assert(b =~= data);
}

impl ResponseData for SaRdLearnedClients {
    open spec fn data_spec(&self) -> Seq<u8> {
        learned_client_bytes(self.learned_clients@)
    }

    open spec fn optional_spec(&self) -> Option<Seq<u8>> {
        Some(Seq::<u8>::empty())
    }

    open spec fn accepts(data_len: nat) -> bool {
        data_len % 9 == 0
    }

    open spec fn fits_capacity(data_len: nat, opt_len: nat) -> bool {
        data_len % 9 == 0 ==> data_len / 9 <= MAX_LEARNED_CLIENTS
    }

    open spec fn decoded_from(&self, data: Seq<u8>, opt: Seq<u8>) -> bool {
        data.len() % 9 == 0 && self.learned_clients@ == learned_clients_at(data)
    }

    fn from_data(data_slice: &[u8], optional_slice: &[u8]) -> (ret: Option<Self>) {
        if data_slice.len() % 9 != 0 {
            return None;
        }
        let ghost expected = learned_clients_at(data_slice@);
        let mut learned_clients: MaxArray<LearnedClient, MAX_LEARNED_CLIENTS> = MaxArray::new();
        let mut i: usize = 0;
        while i < data_slice.len()
            invariant
                data_slice@.len() % 9 == 0,
                data_slice@.len() / 9 <= MAX_LEARNED_CLIENTS,
                i % 9 == 0,
                i <= data_slice@.len(),
                learned_clients@.len() == i / 9,
                learned_clients@ == expected.subrange(0, (i / 9) as int),
                expected == learned_clients_at(data_slice@),
            decreases data_slice@.len() - i,
        {
            let smart_ack_client_id = read_u32_be(data_slice, i);
            let controller_id = read_u32_be(data_slice, i + 4);
            let mailbox_index = data_slice[i + 8];
            let ghost k = (i / 9) as int;
            assert(9 * k == i);
            learned_clients.push(LearnedClient { smart_ack_client_id, controller_id, mailbox_index }).unwrap();
            i += 9;
            assert(learned_clients@ == expected.subrange(0, (i / 9) as int));
        }
        assert(learned_clients@ == expected);
        Some(SaRdLearnedClients { learned_clients })
    }

    fn to_data(&self) -> (ret: MaxArray<u8, DATA_AFTER_CODE_LENGTH>) {
        proof { use_type_invariant(&self.learned_clients); }
        let clients = self.learned_clients.as_slice();
        let mut ret: MaxArray<u8, DATA_AFTER_CODE_LENGTH> = MaxArray::new();
        let mut k: usize = 0;
        while k < clients.len()
            invariant
                k <= clients@.len(),
                clients@ == self.learned_clients@,
                clients@.len() <= MAX_LEARNED_CLIENTS,
                ret@ == learned_client_bytes(clients@.subrange(0, k as int)),
                ret@.len() == 9 * k,
            decreases clients@.len() - k,
        {
            let client = clients[k];
            ret.push_u32_be(client.smart_ack_client_id).unwrap();
            ret.push_u32_be(client.controller_id).unwrap();
            ret.push(client.mailbox_index).unwrap();
            proof {
                let prefix = clients@.subrange(0, k + 1);
                assert(prefix.drop_last() == clients@.subrange(0, k as int));
                assert(prefix.last() == client);
            }
            k += 1;
        }
        assert(clients@.subrange(0, clients@.len() as int) == clients@);
        ret
    }

    fn to_optional_data(&self) -> (ret: Option<MaxArray<u8, MAX_OPTIONAL_LENGTH>>) {
        Some(MaxArray::new())
    }

    open spec fn round_trips(&self) -> bool {
        true
    }

    proof fn lemma_encoded_decodes(&self) {
        lemma_learned_clients_roundtrip(self.learned_clients@);
    }

    open spec fn keeps_data(data: Seq<u8>) -> bool {
        true
    }

    proof fn lemma_decoded_encodes(&self, data: Seq<u8>, opt: Seq<u8>) {
        lemma_learned_client_bytes_of(data);
    }
}

/// Response data to [SmartAckData::SaRdMailboxStatus].
#[derive(Clone, Copy, Debug, PartialEq, Eq, Hash, PartialOrd, Ord)]
pub struct SaRdMailboxStatus {
    pub status: MailboxStatus,
}

impl ResponseData for SaRdMailboxStatus {
    open spec fn data_spec(&self) -> Seq<u8> {
        Seq::<u8>::empty().push(self.status.to_byte_spec())
    }

    open spec fn optional_spec(&self) -> Option<Seq<u8>> {
        Some(Seq::<u8>::empty())
    }

    open spec fn accepts(data_len: nat) -> bool {
        data_len == 1
    }

    open spec fn fits_capacity(data_len: nat, opt_len: nat) -> bool {
        true
    }

    open spec fn decoded_from(&self, data: Seq<u8>, opt: Seq<u8>) -> bool {
        &&& data.len() == 1
        &&& self.status == MailboxStatus::from_byte_spec(data[0])
    }

    fn from_data(data_slice: &[u8], optional_slice: &[u8]) -> (ret: Option<Self>) {
        if data_slice.len() != 1 {
            return None;
        }
        let status = MailboxStatus::from(data_slice[0]);
        Some(SaRdMailboxStatus { status })
    }

    fn to_data(&self) -> (ret: MaxArray<u8, DATA_AFTER_CODE_LENGTH>) {
        let mut ret: MaxArray<u8, DATA_AFTER_CODE_LENGTH> = MaxArray::new();
        let status = &self.status;
        ret.push(u8::from(*status)).unwrap();
        ret
    }

    fn to_optional_data(&self) -> (ret: Option<MaxArray<u8, MAX_OPTIONAL_LENGTH>>) {
        let mut ret: MaxArray<u8, MAX_OPTIONAL_LENGTH> = MaxArray::new();
        Some(ret)
    }

    open spec fn round_trips(&self) -> bool {
        MailboxStatus::from_byte_spec(self.status.to_byte_spec()) == self.status
    }

    proof fn lemma_encoded_decodes(&self) {
        let d = self.data_spec();
        assert(d.len() == 1);
        assert(d[0] == self.status.to_byte_spec());
    }

    open spec fn keeps_data(data: Seq<u8>) -> bool {
        true
    }

    proof fn lemma_decoded_encodes(&self, data: Seq<u8>, opt: Seq<u8>) {
        MailboxStatus::lemma_byte_roundtrip(data[0]);
        assert(self.data_spec() =~= data);
    }
}

/// Response data to [Command24Data::ReadChannel].
#[derive(Clone, Copy, Debug, PartialEq, Eq, Hash, PartialOrd, Ord)]
pub struct R802RdChannel {
    pub channel: u8,
}

impl ResponseData for R802RdChannel {
    open spec fn data_spec(&self) -> Seq<u8> {
        Seq::<u8>::empty().push(self.channel)
    }

    open spec fn optional_spec(&self) -> Option<Seq<u8>> {
        Some(Seq::<u8>::empty())
    }

    open spec fn accepts(data_len: nat) -> bool {
        data_len == 1
    }

    open spec fn fits_capacity(data_len: nat, opt_len: nat) -> bool {
        true
    }

    open spec fn decoded_from(&self, data: Seq<u8>, opt: Seq<u8>) -> bool {
        &&& data.len() == 1
        &&& self.channel == data[0]
    }

    fn from_data(data_slice: &[u8], optional_slice: &[u8]) -> (ret: Option<Self>) {
        if data_slice.len() != 1 {
            return None;
        }
        let channel = data_slice[0];
        Some(R802RdChannel { channel })
    }

    fn to_data(&self) -> (ret: MaxArray<u8, DATA_AFTER_CODE_LENGTH>) {
        let mut ret: MaxArray<u8, DATA_AFTER_CODE_LENGTH> = MaxArray::new();
        let channel = &self.channel;
        ret.push(*channel).unwrap();
        ret
    }

    fn to_optional_data(&self) -> (ret: Option<MaxArray<u8, MAX_OPTIONAL_LENGTH>>) {
        let mut ret: MaxArray<u8, MAX_OPTIONAL_LENGTH> = MaxArray::new();
        Some(ret)
    }

    open spec fn round_trips(&self) -> bool {
        true
    }

    proof fn lemma_encoded_decodes(&self) {
        let d = self.data_spec();
        assert(d.len() == 1);
        assert(d[0] == self.channel);
    }

    open spec fn keeps_data(data: Seq<u8>) -> bool {
        true
    }

    proof fn lemma_decoded_encodes(&self, data: Seq<u8>, opt: Seq<u8>) {
        assert(self.data_spec() =~= data);
    }
}

} // verus!
