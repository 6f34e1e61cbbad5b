//! The header decoder: consumes the framing markers and the event type
//! table in a fixed order, and builds the sealed registry.  The spec
//! functions here give the byte-exact grammar of the header; the exec
//! decoder is proved to follow it, error for error.

use vstd::prelude::*;
use crate::bytes::be_val;
use crate::bytes::Cursor;
use crate::registry::Registry;
use crate::types::EventSize;
use crate::types::EventType;
use crate::types::ParseError;
use crate::types::utf8_decode;
use crate::types::utf8_to_string;

verus! {

pub open spec fn magic_hdrb() -> Seq<u8> {
    seq![104u8, 100u8, 114u8, 98u8]
}

pub open spec fn magic_hetb() -> Seq<u8> {
    seq![104u8, 101u8, 116u8, 98u8]
}

pub open spec fn magic_hete() -> Seq<u8> {
    seq![104u8, 101u8, 116u8, 101u8]
}

pub open spec fn magic_etb() -> Seq<u8> {
    seq![101u8, 116u8, 98u8, 0u8]
}

pub open spec fn magic_ete() -> Seq<u8> {
    seq![101u8, 116u8, 101u8, 0u8]
}

pub open spec fn magic_hdre() -> Seq<u8> {
    seq![104u8, 100u8, 114u8, 101u8]
}

pub open spec fn magic_datb() -> Seq<u8> {
    seq![100u8, 97u8, 116u8, 98u8]
}

/// A four-byte framing marker read at `i`: the position after it on a match,
/// the exact failure otherwise.
pub open spec fn spec_magic(s: Seq<u8>, i: int, m: Seq<u8>) -> Result<int, ParseError> {
    if i + 4 > s.len() {
        Err(ParseError::Truncated)
    } else if s.subrange(i, i + 4) != m {
        Err(ParseError::BadMagic)
    } else {
        Ok(i + 4)
    }
}

/// One parsed event type descriptor, not counting its begin marker: the tag,
/// the table entry it declares, and the position after its end marker.
pub struct SpecDescr {
    pub tag: u16,
    pub size: EventSize,
    pub descr: Seq<char>,
    pub end: int,
}

/// The descriptor body starting at `j` (the byte after the begin marker):
/// tag, signed size word, length-prefixed description, length-prefixed
/// extension blob (skipped), end marker.  The only negative size accepted is
/// the variable-size word; the description must be UTF-8.
pub open spec fn spec_descriptor(s: Seq<u8>, j: int) -> Result<SpecDescr, ParseError> {
    if j + 2 > s.len() {
        Err(ParseError::Truncated)
    } else if j + 4 > s.len() {
        Err(ParseError::Truncated)
    } else {
        let tag = be_val(s.subrange(j, j + 2)) as u16;
        let rawsize = be_val(s.subrange(j + 2, j + 4));
        if rawsize >= 0x8000 && rawsize != 0xFFFF {
            Err(ParseError::BadSizeField)
        } else if j + 8 > s.len() {
            Err(ParseError::Truncated)
        } else {
            let size = if rawsize == 0xFFFF {
                EventSize::Variable
            } else {
                EventSize::Fixed(rawsize as u16)
            };
            let dlen = be_val(s.subrange(j + 4, j + 8));
            if j + 8 + dlen > s.len() {
                Err(ParseError::Truncated)
            } else {
                match utf8_decode(s.subrange(j + 8, j + 8 + dlen)) {
                    None => Err(ParseError::BadUtf8),
                    Some(descr) => {
                        if j + 12 + dlen > s.len() {
                            Err(ParseError::Truncated)
                        } else {
                            let elen = be_val(s.subrange(j + 8 + dlen, j + 12 + dlen));
                            if j + 12 + dlen + elen > s.len() {
                                Err(ParseError::Truncated)
                            } else {
                                match spec_magic(s, j + 12 + dlen + elen, magic_ete()) {
                                    Err(e) => Err(e),
                                    Ok(end) => Ok(
                                        SpecDescr { tag, size, descr, end },
                                    ),
                                }
                            }
                        }
                    },
                }
            }
        }
    }
}

pub proof fn lemma_descriptor_end(s: Seq<u8>, j: int)
    requires
        spec_descriptor(s, j) is Ok,
    ensures
        spec_descriptor(s, j) matches Ok(d) && j + 16 <= d.end <= s.len(),
{
    crate::bytes::lemma_be_val_bound(s.subrange(j + 4, j + 8));
    let dlen = be_val(s.subrange(j + 4, j + 8));
    crate::bytes::lemma_be_val_bound(s.subrange(j + 8 + dlen, j + 12 + dlen));
}

/// The event type table from marker position `i` on: descriptors until the
/// table end marker.  A tag declared twice keeps its later entry.
pub open spec fn spec_descriptors(s: Seq<u8>, i: int) -> Result<
    (Map<u16, EventSize>, int),
    ParseError,
>
    decreases s.len() - i,
{
    if i + 4 > s.len() {
        Err(ParseError::Truncated)
    } else if s.subrange(i, i + 4) == magic_hete() {
        Ok((Map::empty(), i + 4))
    } else if s.subrange(i, i + 4) != magic_etb() {
        Err(ParseError::BadMagic)
    } else {
        match spec_descriptor(s, i + 4) {
            Err(e) => Err(e),
            Ok(d) => {
                if i < d.end <= s.len() {
                    match spec_descriptors(s, d.end) {
                        Err(e) => Err(e),
                        Ok((m, end)) => {
                            let combined = if m.dom().contains(d.tag) {
                                m
                            } else {
                                m.insert(d.tag, d.size)
                            };
                            Ok((combined, end))
                        },
                    }
                } else {
                    Err(ParseError::Truncated)
                }
            },
        }
    }
}

pub proof fn lemma_descriptors_end(s: Seq<u8>, i: int)
    requires
        0 <= i,
        spec_descriptors(s, i) is Ok,
    ensures
        spec_descriptors(s, i) matches Ok(p) && i + 4 <= p.1 <= s.len(),
    decreases s.len() - i,
{
    if s.subrange(i, i + 4) == magic_hete() {
    } else {
        lemma_descriptor_end(s, i + 4);
        let d = spec_descriptor(s, i + 4)->Ok_0;
        lemma_descriptors_end(s, d.end);
    }
}

/// The whole header from the start of the stream: begin markers, the event
/// type table, the header end marker and the data section begin marker.  On
/// success: the sealed tag-to-size-class map, and the position of the first
/// data record.
pub open spec fn spec_header(s: Seq<u8>) -> Result<(Map<u16, EventSize>, int), ParseError> {
    match spec_magic(s, 0, magic_hdrb()) {
        Err(e) => Err(e),
        Ok(p1) => match spec_magic(s, p1, magic_hetb()) {
            Err(e) => Err(e),
            Ok(p2) => match spec_descriptors(s, p2) {
                Err(e) => Err(e),
                Ok((m, p3)) => match spec_magic(s, p3, magic_hdre()) {
                    Err(e) => Err(e),
                    Ok(p4) => match spec_magic(s, p4, magic_datb()) {
                        Err(e) => Err(e),
                        Ok(p5) => Ok((m, p5)),
                    },
                },
            },
        },
    }
}

/// Decodes one descriptor body, the cursor standing just past the begin
/// marker.
pub fn decode_descriptor(cur: &mut Cursor<'_>) -> (r: Result<(u16, EventType), ParseError>)
    requires
        old(cur).wf(),
    ensures
        final(cur).wf(),
        final(cur).bytes() == old(cur).bytes(),
        match r {
            Ok((tag, et)) => spec_descriptor(old(cur).bytes(), old(cur).at()) matches Ok(d)
                && d.tag == tag
                && d.size == et.size
                && d.descr == et.descr@
                && final(cur).at() == d.end,
            Err(e) => spec_descriptor(old(cur).bytes(), old(cur).at()) matches Err(e2) && e == e2,
        },
{
    let tag = match cur.read_u16() {
        Ok(v) => v,
        Err(e) => { return Err(e); },
    };
    let rawsize = match cur.read_u16() {
        Ok(v) => v,
        Err(e) => { return Err(e); },
    };
    let size = if rawsize == 0xFFFF {
        EventSize::Variable
    } else if rawsize < 0x8000 {
        EventSize::Fixed(rawsize)
    } else {
        return Err(ParseError::BadSizeField);
    };
    let dlen = match cur.read_u32() {
        Ok(v) => v,
        Err(e) => { return Err(e); },
    };
    let descr_bytes = match cur.read_bytes(dlen as usize) {
        Ok(v) => v,
        Err(e) => { return Err(e); },
    };
    let descr = match utf8_to_string(descr_bytes) {
        Ok(s) => s,
        Err(_) => { return Err(ParseError::BadUtf8); },
    };
    let elen = match cur.read_u32() {
        Ok(v) => v,
        Err(e) => { return Err(e); },
    };
    match cur.skip(elen as usize) {
        Ok(()) => (),
        Err(e) => { return Err(e); },
    };
    match cur.expect4(101u8, 116u8, 101u8, 0u8) {
        Ok(()) => (),
        Err(e) => { return Err(e); },
    };
    Ok((tag, EventType { size, descr }))
}

/// Decodes the whole header, returning the sealed registry and leaving the
/// cursor at the first record of the data section.
#[verifier::loop_isolation(false)]
#[verifier::rlimit(80)]
pub fn decode_header(cur: &mut Cursor<'_>) -> (r: Result<Registry, ParseError>)
    requires
        old(cur).wf(),
        old(cur).at() == 0,
    ensures
        final(cur).wf(),
        final(cur).bytes() == old(cur).bytes(),
        match r {
            Ok(reg) => spec_header(old(cur).bytes()) matches Ok(p) && reg.sizes() == p.0
                && final(cur).at() == p.1,
            Err(e) => spec_header(old(cur).bytes()) matches Err(e2) && e == e2,
        },
{
    let ghost s = old(cur).bytes();
    match cur.expect4(104u8, 100u8, 114u8, 98u8) {
        Ok(()) => (),
        Err(e) => { return Err(e); },
    };
    match cur.expect4(104u8, 101u8, 116u8, 98u8) {
        Ok(()) => (),
        Err(e) => { return Err(e); },
    };
    let mut reg = Registry::new();
    let mut done = false;
    while !done
        invariant
            cur.wf(),
            cur.bytes() == s,
            done ==> (spec_descriptors(s, 8) matches Ok(q) && q.0 == reg.sizes()
                && cur.at() == q.1),
            !done ==> match spec_descriptors(s, cur.at()) {
                Ok(p) => spec_descriptors(s, 8) matches Ok(q)
                    && q.0 == reg.sizes().union_prefer_right(p.0)
                    && q.1 == p.1,
                Err(e) => spec_descriptors(s, 8) == Err::<(Map<u16, EventSize>, int), ParseError>(e),
            },
        decreases s.len() - cur.at(),
    {
        let ghost i = cur.at();
        let marker = match cur.read_bytes(4) {
            Ok(v) => v,
            Err(e) => {
                return Err(e);
            },
        };
        if marker[0] == 104u8 && marker[1] == 101u8 && marker[2] == 116u8 && marker[3] == 101u8 {
            proof {
                assert(s.subrange(i, i + 4) =~= magic_hete());
                assert(spec_descriptors(s, i) == Ok::<_, ParseError>((
                    Map::<u16, EventSize>::empty(),
                    i + 4,
                )));
                assert(reg.sizes().union_prefer_right(Map::<u16, EventSize>::empty())
                    =~= reg.sizes());
            }
            done = true;
            continue;
        }
        if !(marker[0] == 101u8 && marker[1] == 116u8 && marker[2] == 98u8 && marker[3] == 0u8) {
            proof {
                let sub = s.subrange(i, i + 4);
                if sub == magic_hete() {
                    assert(sub[0] == 104u8 && sub[1] == 101u8 && sub[2] == 116u8 && sub[3] == 101u8);
                }
                if sub == magic_etb() {
                    assert(sub[0] == 101u8 && sub[1] == 116u8 && sub[2] == 98u8 && sub[3] == 0u8);
                }
            }
            return Err(ParseError::BadMagic);
        }
        proof {
            assert(s.subrange(i, i + 4) =~= magic_etb());
        }
        let (tag, et) = match decode_descriptor(cur) {
            Ok(v) => v,
            Err(e) => {
                return Err(e);
            },
        };
        proof {
            lemma_descriptor_end(s, i + 4);
        }
        let ghost old_sizes = reg.sizes();
        let ghost dsize = et.size;
        reg.set(tag, et);
        proof {
            let d = spec_descriptor(s, i + 4)->Ok_0;
            match spec_descriptors(s, d.end) {
                Ok((m, end)) => {
                    let combined = if m.dom().contains(d.tag) {
                        m
                    } else {
                        m.insert(d.tag, d.size)
                    };
                    assert(spec_descriptors(s, i) == Ok::<_, ParseError>((combined, end)));
                    assert(old_sizes.union_prefer_right(combined)
                        =~= old_sizes.insert(d.tag, d.size).union_prefer_right(m));
                },
                Err(e) => {
                    assert(spec_descriptors(s, i) == Err::<(Map<u16, EventSize>, int), ParseError>(e));
                },
            }
        }
    }
    match cur.expect4(104u8, 100u8, 114u8, 101u8) {
        Ok(()) => (),
        Err(e) => { return Err(e); },
    };
    match cur.expect4(100u8, 97u8, 116u8, 98u8) {
        Ok(()) => (),
        Err(e) => { return Err(e); },
    };
    Ok(reg)
}

} // verus!
