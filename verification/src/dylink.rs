//! The `dylink.0` custom section of a WebAssembly module.
//!
//! The section is a run of subsections: a type byte, the length of the payload as an unsigned
//! LEB128 number, and the payload. A subsection of type 1 holds the memory and table needs of the
//! module as four numbers; other types are passed over.

use vstd::prelude::*;
use vstd::slice::slice_subrange;
use crate::uleb128::Leb128Error;
use crate::uleb128::read_unsigned;

verus! {

/// The type byte of the subsection with the memory and table needs.
pub const MEM_INFO_SUBSECTION: u8 = 1;

/// Memory and table needs of a module.
#[derive(Debug, Clone, Copy, PartialEq, Eq, Structural)]
pub struct DylinkMemInfo {
    pub memory_size: u32,
    pub memory_alignment: u32,
    pub table_size: u32,
    pub table_alignment: u32,
}

/// What the section says.
#[derive(Debug, Clone, Copy, PartialEq, Eq, Structural)]
pub struct DylinkSectionInfo {
    pub mem_info: DylinkMemInfo,
}

/// Why a section could not be read.
#[derive(Debug, Clone, Copy, PartialEq, Eq, Structural)]
pub enum DylinkError {
    /// A byte was wanted where the bytes have ended.
    UnexpectedEnd,
    /// A number could not be read.
    Number(Leb128Error),
    /// No subsection holds the memory and table needs.
    NoMemInfo,
}

/// How reading a section comes out.
pub enum SectionOutcome {
    /// The section was read.
    Read(DylinkSectionInfo),
    /// The section was rejected.
    Rejected(DylinkError),
    /// A payload is longer than what is left of the section.
    Overrun,
}

/// What the payload of a subsection of type 1 says. Each number is cut to its low 32 bits; bytes
/// behind the fourth number do not matter.
pub open spec fn mem_info_of(payload: Seq<u8>) -> Result<DylinkMemInfo, Leb128Error> {
    match crate::uleb128::leb128_read(payload) {
        Err(e) => Err(e),
        Ok((memory_size, rest)) => match crate::uleb128::leb128_read(rest) {
            Err(e) => Err(e),
            Ok((memory_alignment, rest)) => match crate::uleb128::leb128_read(rest) {
                Err(e) => Err(e),
                Ok((table_size, rest)) => match crate::uleb128::leb128_read(rest) {
                    Err(e) => Err(e),
                    Ok((table_alignment, _)) => Ok(
                        DylinkMemInfo {
                            memory_size: memory_size as u32,
                            memory_alignment: memory_alignment as u32,
                            table_size: table_size as u32,
                            table_alignment: table_alignment as u32,
                        },
                    ),
                },
            },
        },
    }
}

/// How reading the rest of a section comes out, where `found` is what the last subsection of
/// type 1 before it said.
pub open spec fn outcome_from(bytes: Seq<u8>, found: Option<DylinkMemInfo>) -> SectionOutcome
    decreases bytes.len(),
{
    if bytes.len() == 0 {
        match found {
            Some(mem_info) => SectionOutcome::Read(DylinkSectionInfo { mem_info }),
            None => SectionOutcome::Rejected(DylinkError::NoMemInfo),
        }
    } else {
        proof {
            crate::uleb128::lemma_read_shortens(bytes.skip(1));
        }
        match crate::uleb128::leb128_read(bytes.skip(1)) {
            Err(e) => SectionOutcome::Rejected(DylinkError::Number(e)),
            Ok((len, rest)) => {
                let payload_len = (len as usize) as int;
                if payload_len > rest.len() {
                    SectionOutcome::Overrun
                } else if bytes[0] != MEM_INFO_SUBSECTION {
                    outcome_from(rest.skip(payload_len), found)
                } else {
                    match mem_info_of(rest.take(payload_len)) {
                        Err(e) => SectionOutcome::Rejected(DylinkError::Number(e)),
                        Ok(info) => outcome_from(rest.skip(payload_len), Some(info)),
                    }
                }
            },
        }
    }
}

/// How reading a section comes out.
pub open spec fn section_outcome(bytes: Seq<u8>) -> SectionOutcome {
    outcome_from(bytes, None)
}

/// Takes one byte off the front of `buf`.
pub fn read_u8(buf: &mut &[u8]) -> (byte: Result<u8, DylinkError>)
    ensures
        old(buf)@.len() == 0 ==> byte == Err::<u8, DylinkError>(DylinkError::UnexpectedEnd),
        old(buf)@.len() == 0 ==> final(buf)@ == old(buf)@,
        old(buf)@.len() != 0 ==> byte == Ok::<u8, DylinkError>(old(buf)@[0]),
        old(buf)@.len() != 0 ==> final(buf)@ == old(buf)@.skip(1),
{
    let bytes: &[u8] = *buf;
    if bytes.len() == 0 {
        return Err(DylinkError::UnexpectedEnd);
    }
    *buf = slice_subrange(bytes, 1, bytes.len());
    Ok(bytes[0])
}

fn read_mem_info(payload: &[u8]) -> (info: Result<DylinkMemInfo, Leb128Error>)
    ensures
        info == mem_info_of(payload@),
{
    let mut buf: &[u8] = payload;
    let memory_size: u64 = read_unsigned(&mut buf)?;
    let memory_alignment: u64 = read_unsigned(&mut buf)?;
    let table_size: u64 = read_unsigned(&mut buf)?;
    let table_alignment: u64 = read_unsigned(&mut buf)?;
    Ok(
        DylinkMemInfo {
            memory_size: memory_size as u32,
            memory_alignment: memory_alignment as u32,
            table_size: table_size as u32,
            table_alignment: table_alignment as u32,
        },
    )
}

fn read_section(bytes: &[u8]) -> (outcome: SectionOutcome)
    ensures
        outcome == section_outcome(bytes@),
{
    let mut buf: &[u8] = bytes;
    let mut found: Option<DylinkMemInfo> = None;
    while buf.len() != 0
        invariant
            outcome_from(buf@, found) == section_outcome(bytes@),
        decreases buf@.len(),
    {
        let ghost whole = buf@;
        let subsection: u8 = match read_u8(&mut buf) {
            Ok(byte) => byte,
            Err(e) => {
                return SectionOutcome::Rejected(e);
            },
        };
        proof {
            crate::uleb128::lemma_read_shortens(whole.skip(1));
        }
        let payload_len: usize = match read_unsigned(&mut buf) {
            Ok(len) => len as usize,
            Err(e) => {
                return SectionOutcome::Rejected(DylinkError::Number(e));
            },
        };
        if payload_len > buf.len() {
            return SectionOutcome::Overrun;
        }
        let payload: &[u8] = slice_subrange(buf, 0, payload_len);
        buf = slice_subrange(buf, payload_len, buf.len());
        if subsection == MEM_INFO_SUBSECTION {
            match read_mem_info(payload) {
                Ok(info) => {
                    found = Some(info);
                },
                Err(e) => {
                    return SectionOutcome::Rejected(DylinkError::Number(e));
                },
            }
        }
    }
    match found {
        Some(mem_info) => SectionOutcome::Read(DylinkSectionInfo { mem_info }),
        None => SectionOutcome::Rejected(DylinkError::NoMemInfo),
    }
}

/// Reads a section whose payloads all lie inside it.
pub fn parse_dylink_section(bytes: &[u8]) -> (info: Result<DylinkSectionInfo, DylinkError>)
    requires
        !(section_outcome(bytes@) is Overrun),
    ensures
        match section_outcome(bytes@) {
            SectionOutcome::Read(section) => info == Ok::<DylinkSectionInfo, DylinkError>(section),
            SectionOutcome::Rejected(e) => info == Err::<DylinkSectionInfo, DylinkError>(e),
            SectionOutcome::Overrun => false,
        },
{
    checked_parse_dylink_section(bytes).unwrap()
}

/// Reads any section; `None` where a payload is longer than what is left of it.
pub fn checked_parse_dylink_section(bytes: &[u8]) -> (info: Option<
    Result<DylinkSectionInfo, DylinkError>,
>)
    ensures
        match section_outcome(bytes@) {
            SectionOutcome::Read(section) => info == Some(
                Ok::<DylinkSectionInfo, DylinkError>(section),
            ),
            SectionOutcome::Rejected(e) => info == Some(Err::<DylinkSectionInfo, DylinkError>(e)),
            SectionOutcome::Overrun => info is None,
        },
{
    match read_section(bytes) {
        SectionOutcome::Read(section) => Some(Ok(section)),
        SectionOutcome::Rejected(e) => Some(Err(e)),
        SectionOutcome::Overrun => None,
    }
}

/// A subsection as it is laid out in a section.
pub struct Subsection {
    pub kind: u8,
    pub len: Seq<u8>,
    pub payload: Seq<u8>,
}

impl Subsection {
    /// The length is spelt in `len` and fits the payload.
    pub open spec fn framed(self) -> bool {
        crate::uleb128::leb128_read(self.len) matches Ok((len, behind)) && behind.len() == 0 && len
            <= usize::MAX && len == self.payload.len()
    }

    /// The subsection is of type 1 and its payload cannot be read.
    pub open spec fn unreadable(self) -> bool {
        self.kind == MEM_INFO_SUBSECTION && mem_info_of(self.payload) is Err
    }

    /// The bytes of the subsection.
    pub open spec fn bytes(self) -> Seq<u8> {
        seq![self.kind] + self.len + self.payload
    }
}

/// Every length is spelt and fits its payload.
pub open spec fn all_framed(subsections: Seq<Subsection>) -> bool {
    forall|i: int| 0 <= i < subsections.len() ==> (#[trigger] subsections[i]).framed()
}

/// The bytes of a section made of `subsections`.
pub open spec fn section_bytes(subsections: Seq<Subsection>) -> Seq<u8>
    decreases subsections.len(),
{
    if subsections.len() == 0 {
        Seq::empty()
    } else {
        subsections[0].bytes() + section_bytes(subsections.skip(1))
    }
}

/// How reading `subsections` one after the other comes out, where `found` is what the last one of
/// type 1 before them said.
pub open spec fn outcome_of(
    subsections: Seq<Subsection>,
    found: Option<DylinkMemInfo>,
) -> SectionOutcome
    decreases subsections.len(),
{
    if subsections.len() == 0 {
        match found {
            Some(mem_info) => SectionOutcome::Read(DylinkSectionInfo { mem_info }),
            None => SectionOutcome::Rejected(DylinkError::NoMemInfo),
        }
    } else if subsections[0].kind != MEM_INFO_SUBSECTION {
        outcome_of(subsections.skip(1), found)
    } else {
        match mem_info_of(subsections[0].payload) {
            Err(e) => SectionOutcome::Rejected(DylinkError::Number(e)),
            Ok(info) => outcome_of(subsections.skip(1), Some(info)),
        }
    }
}

/// The bytes of a section made of subsections are read as one subsection after the other.
pub proof fn law_bytes_are_read_by_subsection(
    subsections: Seq<Subsection>,
    found: Option<DylinkMemInfo>,
)
    requires
        all_framed(subsections),
    ensures
        outcome_from(section_bytes(subsections), found) == outcome_of(subsections, found),
    decreases subsections.len(),
{
    if subsections.len() != 0 {
        let first = subsections[0];
        let others = subsections.skip(1);
        let rest = section_bytes(others);
        let bytes = first.bytes() + rest;
        let behind_len = first.payload + rest;
        assert(bytes.skip(1) =~= first.len + behind_len);
        crate::uleb128::lemma_read_ignores_what_follows(first.len, behind_len);
        assert(crate::uleb128::leb128_read(first.len)->Ok_0.1 + behind_len =~= behind_len);
        assert(behind_len.take(first.payload.len() as int) =~= first.payload);
        assert(behind_len.skip(first.payload.len() as int) =~= rest);
        law_bytes_are_read_by_subsection(others, found);
        if mem_info_of(first.payload) is Ok {
            law_bytes_are_read_by_subsection(others, Some(mem_info_of(first.payload)->Ok_0));
        }
    }
}

/// A subsection of another type changes nothing, wherever in a section it stands.
pub proof fn law_other_subsections_are_passed_over(
    subsections: Seq<Subsection>,
    at: int,
    other: Subsection,
)
    requires
        all_framed(subsections),
        0 <= at <= subsections.len(),
        other.framed(),
        other.kind != MEM_INFO_SUBSECTION,
    ensures
        section_outcome(section_bytes(subsections.insert(at, other))) == section_outcome(
            section_bytes(subsections),
        ),
{
    law_bytes_are_read_by_subsection(subsections, None);
    law_bytes_are_read_by_subsection(subsections.insert(at, other), None);
    lemma_passed_over(subsections, at, other, None);
}

proof fn lemma_passed_over(
    subsections: Seq<Subsection>,
    at: int,
    other: Subsection,
    found: Option<DylinkMemInfo>,
)
    requires
        0 <= at <= subsections.len(),
        other.kind != MEM_INFO_SUBSECTION,
    ensures
        outcome_of(subsections.insert(at, other), found) == outcome_of(subsections, found),
    decreases at,
{
    let inserted = subsections.insert(at, other);
    if at == 0 {
        assert(inserted.skip(1) =~= subsections);
    } else {
        let others = subsections.skip(1);
        assert(inserted[0] == subsections[0]);
        assert(inserted.skip(1) =~= others.insert(at - 1, other));
        lemma_passed_over(others, at - 1, other, found);
        if mem_info_of(subsections[0].payload) is Ok {
            let info = mem_info_of(subsections[0].payload)->Ok_0;
            lemma_passed_over(others, at - 1, other, Some(info));
        }
    }
}

/// Bytes behind the four numbers of a payload that can be read change nothing, wherever in a
/// section it stands: `longer` is the subsection number `at` with `extra` behind its payload.
pub proof fn law_bytes_behind_mem_info_do_not_matter(
    subsections: Seq<Subsection>,
    at: int,
    longer: Subsection,
    extra: Seq<u8>,
)
    requires
        all_framed(subsections),
        0 <= at < subsections.len(),
        subsections[at].kind == MEM_INFO_SUBSECTION,
        mem_info_of(subsections[at].payload) is Ok,
        longer.framed(),
        longer.kind == MEM_INFO_SUBSECTION,
        longer.payload == subsections[at].payload + extra,
    ensures
        section_outcome(section_bytes(subsections.update(at, longer))) == section_outcome(
            section_bytes(subsections),
        ),
{
    lemma_mem_info_ignores_what_follows(subsections[at].payload, extra);
    law_bytes_are_read_by_subsection(subsections, None);
    law_bytes_are_read_by_subsection(subsections.update(at, longer), None);
    lemma_same_info(subsections, at, longer, None);
}

proof fn lemma_mem_info_ignores_what_follows(payload: Seq<u8>, extra: Seq<u8>)
    requires
        mem_info_of(payload) is Ok,
    ensures
        mem_info_of(payload + extra) == mem_info_of(payload),
{
    let behind_first = crate::uleb128::leb128_read(payload)->Ok_0.1;
    let behind_second = crate::uleb128::leb128_read(behind_first)->Ok_0.1;
    let behind_third = crate::uleb128::leb128_read(behind_second)->Ok_0.1;
    crate::uleb128::lemma_read_ignores_what_follows(payload, extra);
    crate::uleb128::lemma_read_ignores_what_follows(behind_first, extra);
    crate::uleb128::lemma_read_ignores_what_follows(behind_second, extra);
    crate::uleb128::lemma_read_ignores_what_follows(behind_third, extra);
}

proof fn lemma_same_info(
    subsections: Seq<Subsection>,
    at: int,
    other: Subsection,
    found: Option<DylinkMemInfo>,
)
    requires
        0 <= at < subsections.len(),
        other.kind == subsections[at].kind,
        mem_info_of(other.payload) == mem_info_of(subsections[at].payload),
    ensures
        outcome_of(subsections.update(at, other), found) == outcome_of(subsections, found),
    decreases at,
{
    let updated = subsections.update(at, other);
    let others = subsections.skip(1);
    if at == 0 {
        assert(updated.skip(1) =~= others);
    } else {
        assert(updated.skip(1) =~= others.update(at - 1, other));
        lemma_same_info(others, at - 1, other, found);
        if mem_info_of(subsections[0].payload) is Ok {
            let info = mem_info_of(subsections[0].payload)->Ok_0;
            lemma_same_info(others, at - 1, other, Some(info));
        }
    }
}

/// A section with a payload of type 1 that cannot be read is rejected, for the reason of the first
/// such payload.
pub proof fn law_first_unreadable_mem_info_rejects(subsections: Seq<Subsection>, first: int)
    requires
        all_framed(subsections),
        0 <= first < subsections.len(),
        subsections[first].unreadable(),
        forall|i: int| 0 <= i < first ==> !(#[trigger] subsections[i]).unreadable(),
    ensures
        section_outcome(section_bytes(subsections)) == SectionOutcome::Rejected(
            DylinkError::Number(mem_info_of(subsections[first].payload)->Err_0),
        ),
{
    law_bytes_are_read_by_subsection(subsections, None);
    lemma_first_unreadable(subsections, first, None);
}

proof fn lemma_first_unreadable(
    subsections: Seq<Subsection>,
    first: int,
    found: Option<DylinkMemInfo>,
)
    requires
        0 <= first < subsections.len(),
        subsections[first].unreadable(),
        forall|i: int| 0 <= i < first ==> !(#[trigger] subsections[i]).unreadable(),
    ensures
        outcome_of(subsections, found) == SectionOutcome::Rejected(
            DylinkError::Number(mem_info_of(subsections[first].payload)->Err_0),
        ),
    decreases first,
{
    if first > 0 {
        let others = subsections.skip(1);
        assert(!subsections[0].unreadable());
        assert forall|i: int| 0 <= i < first - 1 implies !(#[trigger] others[i]).unreadable() by {
            assert(others[i] == subsections[i + 1]);
        }
        let found_next = if subsections[0].kind == MEM_INFO_SUBSECTION {
            Some(mem_info_of(subsections[0].payload)->Ok_0)
        } else {
            found
        };
        lemma_first_unreadable(others, first - 1, found_next);
    }
}

/// A section made of subsections is rejected for a number exactly if some payload of type 1 cannot
/// be read, and no payload of it runs over.
pub proof fn law_rejected_exactly_for_unreadable_mem_info(subsections: Seq<Subsection>)
    requires
        all_framed(subsections),
    ensures
        (section_outcome(section_bytes(subsections)) matches SectionOutcome::Rejected(e)
            && e is Number) <==> exists|i: int|
            0 <= i < subsections.len() && (#[trigger] subsections[i]).unreadable(),
        !(section_outcome(section_bytes(subsections)) is Overrun),
{
    law_bytes_are_read_by_subsection(subsections, None);
    lemma_rejected_for_number(subsections, None);
}

proof fn lemma_rejected_for_number(subsections: Seq<Subsection>, found: Option<DylinkMemInfo>)
    ensures
        (outcome_of(subsections, found) matches SectionOutcome::Rejected(e) && e is Number)
            <==> exists|i: int|
            0 <= i < subsections.len() && (#[trigger] subsections[i]).unreadable(),
        !(outcome_of(subsections, found) is Overrun),
    decreases subsections.len(),
{
    if subsections.len() != 0 {
        let others = subsections.skip(1);
        let found_next = if subsections[0].kind == MEM_INFO_SUBSECTION {
            Some(mem_info_of(subsections[0].payload)->Ok_0)
        } else {
            found
        };
        lemma_rejected_for_number(others, found_next);
        assert forall|i: int| 0 <= i < others.len() && (#[trigger] others[i]).unreadable() implies
            exists|k: int|
            0 <= k < subsections.len() && (#[trigger] subsections[k]).unreadable() by {
            assert(subsections[i + 1].unreadable());
        }
        assert forall|k: int|
            1 <= k < subsections.len() && (#[trigger] subsections[k]).unreadable() implies exists|
            i: int,
        | 0 <= i < others.len() && (#[trigger] others[i]).unreadable() by {
            assert(others[k - 1].unreadable());
        }
    }
}

/// A section made of subsections that can be read says what its last subsection of type 1 says.
pub proof fn law_last_mem_info_counts(subsections: Seq<Subsection>, last: int)
    requires
        all_framed(subsections),
        forall|i: int| 0 <= i < subsections.len() ==> !(#[trigger] subsections[i]).unreadable(),
        0 <= last < subsections.len(),
        subsections[last].kind == MEM_INFO_SUBSECTION,
        forall|i: int|
            last < i < subsections.len() ==> (#[trigger] subsections[i]).kind
                != MEM_INFO_SUBSECTION,
    ensures
        section_outcome(section_bytes(subsections)) == SectionOutcome::Read(
            DylinkSectionInfo { mem_info: mem_info_of(subsections[last].payload)->Ok_0 },
        ),
{
    law_bytes_are_read_by_subsection(subsections, None);
    lemma_last_mem_info(subsections, last, None);
}

proof fn lemma_no_mem_info(subsections: Seq<Subsection>, found: Option<DylinkMemInfo>)
    requires
        forall|i: int|
            0 <= i < subsections.len() ==> (#[trigger] subsections[i]).kind
                != MEM_INFO_SUBSECTION,
    ensures
        outcome_of(subsections, found) == outcome_of(Seq::empty(), found),
    decreases subsections.len(),
{
    if subsections.len() != 0 {
        let others = subsections.skip(1);
        assert forall|i: int| 0 <= i < others.len() implies (#[trigger] others[i]).kind
            != MEM_INFO_SUBSECTION by {
            assert(others[i] == subsections[i + 1]);
        }
        lemma_no_mem_info(others, found);
    }
}

proof fn lemma_last_mem_info(
    subsections: Seq<Subsection>,
    last: int,
    found: Option<DylinkMemInfo>,
)
    requires
        forall|i: int| 0 <= i < subsections.len() ==> !(#[trigger] subsections[i]).unreadable(),
        0 <= last < subsections.len(),
        subsections[last].kind == MEM_INFO_SUBSECTION,
        forall|i: int|
            last < i < subsections.len() ==> (#[trigger] subsections[i]).kind
                != MEM_INFO_SUBSECTION,
    ensures
        outcome_of(subsections, found) == SectionOutcome::Read(
            DylinkSectionInfo { mem_info: mem_info_of(subsections[last].payload)->Ok_0 },
        ),
    decreases last,
{
    let others = subsections.skip(1);
    assert(forall|i: int| 0 <= i < others.len() ==> others[i] == subsections[i + 1]);
    assert(!subsections[0].unreadable());
    let found_next = if subsections[0].kind == MEM_INFO_SUBSECTION {
        Some(mem_info_of(subsections[0].payload)->Ok_0)
    } else {
        found
    };
    if last == 0 {
        lemma_no_mem_info(others, found_next);
    } else {
        lemma_last_mem_info(others, last - 1, found_next);
    }
}

/// A section made of subsections of other types is rejected.
pub proof fn law_mem_info_is_needed(subsections: Seq<Subsection>)
    requires
        all_framed(subsections),
        forall|i: int|
            0 <= i < subsections.len() ==> (#[trigger] subsections[i]).kind
                != MEM_INFO_SUBSECTION,
    ensures
        section_outcome(section_bytes(subsections)) == SectionOutcome::Rejected(
            DylinkError::NoMemInfo,
        ),
{
    law_bytes_are_read_by_subsection(subsections, None);
    lemma_no_mem_info(subsections, None);
}

/// A payload that spells four numbers, with any bytes behind them, says these numbers in the order
/// of memory size, memory alignment, table size and table alignment: as they are where they have
/// 32 bits, else what is left over of them above multiples of 2 to the 32.
pub proof fn law_mem_info_is_four_numbers(
    first: Seq<u8>,
    second: Seq<u8>,
    third: Seq<u8>,
    fourth: Seq<u8>,
    extra: Seq<u8>,
)
    requires
        crate::uleb128::leb128_read(first) matches Ok((_, behind)) && behind.len() == 0,
        crate::uleb128::leb128_read(second) matches Ok((_, behind)) && behind.len() == 0,
        crate::uleb128::leb128_read(third) matches Ok((_, behind)) && behind.len() == 0,
        crate::uleb128::leb128_read(fourth) matches Ok((_, behind)) && behind.len() == 0,
    ensures
        mem_info_of(first + second + third + fourth + extra) is Ok,
        ({
            let info = mem_info_of(first + second + third + fourth + extra)->Ok_0;
            let a = crate::uleb128::leb128_read(first)->Ok_0.0;
            let b = crate::uleb128::leb128_read(second)->Ok_0.0;
            let c = crate::uleb128::leb128_read(third)->Ok_0.0;
            let d = crate::uleb128::leb128_read(fourth)->Ok_0.0;
            &&& info.memory_size == a % 0x1_0000_0000
            &&& info.memory_alignment == b % 0x1_0000_0000
            &&& info.table_size == c % 0x1_0000_0000
            &&& info.table_alignment == d % 0x1_0000_0000
            &&& a <= u32::MAX ==> info.memory_size == a
            &&& b <= u32::MAX ==> info.memory_alignment == b
            &&& c <= u32::MAX ==> info.table_size == c
            &&& d <= u32::MAX ==> info.table_alignment == d
        }),
{
    let a = crate::uleb128::leb128_read(first)->Ok_0.0;
    let b = crate::uleb128::leb128_read(second)->Ok_0.0;
    let c = crate::uleb128::leb128_read(third)->Ok_0.0;
    let d = crate::uleb128::leb128_read(fourth)->Ok_0.0;
    let from_fourth = fourth + extra;
    let from_third = third + from_fourth;
    let from_second = second + from_third;
    let payload = first + second + third + fourth + extra;
    assert(payload =~= first + from_second);
    lemma_number_then(first, from_second);
    lemma_number_then(second, from_third);
    lemma_number_then(third, from_fourth);
    lemma_number_then(fourth, extra);
    assert(a as u32 == a % 0x1_0000_0000) by (bit_vector);
    assert(b as u32 == b % 0x1_0000_0000) by (bit_vector);
    assert(c as u32 == c % 0x1_0000_0000) by (bit_vector);
    assert(d as u32 == d % 0x1_0000_0000) by (bit_vector);
}

proof fn lemma_number_then(number: Seq<u8>, rest: Seq<u8>)
    requires
        crate::uleb128::leb128_read(number) matches Ok((_, behind)) && behind.len() == 0,
    ensures
        crate::uleb128::leb128_read(number + rest) == Ok::<(u64, Seq<u8>), Leb128Error>(
            (crate::uleb128::leb128_read(number)->Ok_0.0, rest),
        ),
{
    crate::uleb128::lemma_read_ignores_what_follows(number, rest);
    assert(crate::uleb128::leb128_read(number)->Ok_0.1 + rest =~= rest);
}

/// A payload that spells less than four numbers says what is wrong with the next one.
pub proof fn law_mem_info_needs_four_numbers(
    first: Seq<u8>,
    second: Seq<u8>,
    third: Seq<u8>,
    bad: Seq<u8>,
)
    requires
        crate::uleb128::leb128_read(first) matches Ok((_, behind)) && behind.len() == 0,
        crate::uleb128::leb128_read(second) matches Ok((_, behind)) && behind.len() == 0,
        crate::uleb128::leb128_read(third) matches Ok((_, behind)) && behind.len() == 0,
        crate::uleb128::leb128_read(bad) is Err,
    ensures
        ({
            let why = Err::<DylinkMemInfo, Leb128Error>(crate::uleb128::leb128_read(bad)->Err_0);
            &&& mem_info_of(bad) == why
            &&& mem_info_of(first + bad) == why
            &&& mem_info_of(first + second + bad) == why
            &&& mem_info_of(first + second + third + bad) == why
        }),
{
    lemma_number_then(first, bad);
    lemma_number_then(second, bad);
    lemma_number_then(third, bad);
    assert(first + second + bad =~= first + (second + bad));
    lemma_number_then(first, second + bad);
    assert(first + second + third + bad =~= first + (second + (third + bad)));
    lemma_number_then(first, second + (third + bad));
    lemma_number_then(second, third + bad);
}

/// How the front of a section decides: nothing left ends it; a length that cannot be spelt rejects
/// it; a length above what is left overruns it.
pub proof fn law_front_of_a_section(kind: u8, len: Seq<u8>, rest: Seq<u8>, info: DylinkMemInfo)
    ensures
        section_outcome(rest) == outcome_from(rest, None),
        outcome_from(Seq::empty(), Some(info)) == SectionOutcome::Read(
            DylinkSectionInfo { mem_info: info },
        ),
        outcome_from(Seq::empty(), None) == SectionOutcome::Rejected(DylinkError::NoMemInfo),
        crate::uleb128::leb128_read(rest) matches Err(e) ==> section_outcome(seq![kind] + rest)
            == SectionOutcome::Rejected(DylinkError::Number(e)) && outcome_from(
            seq![kind] + rest,
            Some(info),
        ) == SectionOutcome::Rejected(DylinkError::Number(e)),
        crate::uleb128::leb128_read(len) matches Ok((n, behind)) ==> (behind.len() == 0 && n
            <= usize::MAX && n > rest.len() ==> section_outcome(seq![kind] + len + rest)
            == SectionOutcome::Overrun && outcome_from(seq![kind] + len + rest, Some(info))
            == SectionOutcome::Overrun),
{
    let short = seq![kind] + rest;
    assert(short.skip(1) =~= rest);
    let bytes = seq![kind] + len + rest;
    assert(bytes.skip(1) =~= len + rest);
    if let Ok((n, behind)) = crate::uleb128::leb128_read(len) {
        if behind.len() == 0 {
            lemma_number_then(len, rest);
        }
    }
}

/// How a subsection at the front of a section is read: one of type 1 is read and goes on with what
/// it says, or rejects the section; one of any other type goes on as if it were not there.
pub proof fn law_subsection_at_the_front(
    kind: u8,
    len: Seq<u8>,
    payload: Seq<u8>,
    rest: Seq<u8>,
    found: Option<DylinkMemInfo>,
)
    requires
        crate::uleb128::leb128_read(len) matches Ok((n, behind)) && behind.len() == 0 && n
            == payload.len() && n <= usize::MAX,
    ensures
        kind != 1 ==> outcome_from(seq![kind] + len + payload + rest, found) == outcome_from(
            rest,
            found,
        ),
        kind == 1 ==> outcome_from(seq![kind] + len + payload + rest, found) == match mem_info_of(
            payload,
        ) {
            Ok(info) => outcome_from(rest, Some(info)),
            Err(e) => SectionOutcome::Rejected(DylinkError::Number(e)),
        },
{
    let bytes = seq![kind] + len + payload + rest;
    assert(bytes.skip(1) =~= len + (payload + rest));
    lemma_number_then(len, payload + rest);
    assert((payload + rest).take(payload.len() as int) =~= payload);
    assert((payload + rest).skip(payload.len() as int) =~= rest);
}

} // verus!
