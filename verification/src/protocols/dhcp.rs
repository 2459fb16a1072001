//! The options of a DHCP packet.
//!
//! The options area is read as RFC 2132 lays it out. A byte 0 is padding
//! and is passed over. A byte 255 ends the options: what follows it is not
//! read. Any other byte is the code of an option, followed by one byte with
//! the length of its value and by the value. An option whose length byte is
//! missing, or whose value would run past the end of the area, is listed
//! with its code and without a value, and nothing is read after it.

use vstd::prelude::*;

verus! {

/// The byte that pads the options area.
pub const PAD: u8 = 0;

/// The byte that ends the options.
pub const END: u8 = 255;

/// The place of the options area in a DHCPv4 packet: it follows the 236
/// bytes of the BOOTP header and the four bytes of the magic cookie.
pub const OPTIONS_OFFSET: usize = 240;

/// The mathematical content of an option.
pub struct OptionView {
    pub code: u8,
    pub value: Option<Seq<u8>>,
}

/// One option of a DHCP packet.
#[derive(Debug, PartialEq, Eq)]
pub struct DhcpOption {
    code: u8,
    value: Option<Vec<u8>>,
}

impl View for DhcpOption {
    type V = OptionView;

    closed spec fn view(&self) -> OptionView {
        OptionView {
            code: self.code,
            value: match self.value {
                Some(value) => Some(value@),
                None => None,
            },
        }
    }
}

impl DhcpOption {
    /// The option with this code and this value.
    pub fn new(code: u8, value: Option<Vec<u8>>) -> (option: DhcpOption)
        ensures
            option@.code == code,
            match value {
                Some(bytes) => option@.value == Some(bytes@),
                None => option@.value is None,
            },
    {
        DhcpOption { code, value }
    }

    /// The code of the option.
    pub fn code(&self) -> (code: u8)
        ensures
            code == self@.code,
    {
        self.code
    }

    /// The value of the option, unless the option is cut off.
    pub fn value(&self) -> (value: Option<&Vec<u8>>)
        ensures
            match value {
                Some(bytes) => self@.value == Some(bytes@),
                None => self@.value is None,
            },
    {
        self.value.as_ref()
    }
}

/// The options in `raw`, in order.
pub open spec fn options(raw: Seq<u8>) -> Seq<OptionView>
    decreases raw.len(),
{
    if raw.len() == 0 || raw[0] == END {
        Seq::empty()
    } else if raw[0] == PAD {
        options(raw.skip(1))
    } else if raw.len() < 2 || raw.len() < 2 + raw[1] {
        seq![OptionView { code: raw[0], value: None }]
    } else {
        seq![OptionView { code: raw[0], value: Some(raw.subrange(2, 2 + raw[1])) }] + options(
            raw.skip(2 + raw[1]),
        )
    }
}

/// The first of `list` with this code, if there is one.
pub open spec fn first_with_code(list: Seq<OptionView>, code: u8) -> Option<OptionView>
    decreases list.len(),
{
    if list.len() == 0 {
        None
    } else if list[0].code == code {
        Some(list[0])
    } else {
        first_with_code(list.skip(1), code)
    }
}

/// The contents of a list of options.
pub open spec fn option_views(list: Seq<DhcpOption>) -> Seq<OptionView> {
    list.map_values(|option: DhcpOption| option@)
}

/// A DHCPv4 packet as far as its options go.
#[derive(Debug, PartialEq, Eq)]
pub struct Dhcpv4Packet {
    options: Vec<u8>,
}

impl View for Dhcpv4Packet {
    type V = Seq<u8>;

    /// The bytes of the options area.
    closed spec fn view(&self) -> Seq<u8> {
        self.options@
    }
}

/// The bytes of `raw` from `start` up to `end`.
fn copy_range(raw: &Vec<u8>, start: usize, end: usize) -> (copy: Vec<u8>)
    requires
        start <= end <= raw.len(),
    ensures
        copy@ == raw@.subrange(start as int, end as int),
{
    let mut copy: Vec<u8> = Vec::new();
    let mut i: usize = start;
    while i < end
        invariant
            start <= i <= end <= raw.len(),
            copy@ == raw@.subrange(start as int, i as int),
        decreases end - i,
    {
        copy.push(raw[i]);
        assert(copy@ =~= raw@.subrange(start as int, i + 1));
        i += 1;
    }
    copy
}

impl Dhcpv4Packet {
    /// A packet with this options area.
    pub fn new(options: Vec<u8>) -> (packet: Dhcpv4Packet)
        ensures
            packet@ == options@,
    {
        Dhcpv4Packet { options }
    }

    /// The packet in this buffer: its options area is all that follows the
    /// header and the magic cookie. A buffer that ends before has no
    /// options.
    pub fn from_raw(raw: &[u8]) -> (packet: Dhcpv4Packet)
        ensures
            packet@ == (if raw@.len() >= OPTIONS_OFFSET {
                raw@.skip(OPTIONS_OFFSET as int)
            } else {
                Seq::<u8>::empty()
            }),
    {
        let mut options: Vec<u8> = Vec::new();
        let mut i: usize = OPTIONS_OFFSET;
        while i < raw.len()
            invariant
                OPTIONS_OFFSET <= i,
                i <= raw.len() || raw.len() < OPTIONS_OFFSET,
                raw.len() >= OPTIONS_OFFSET ==> options@ == raw@.subrange(
                    OPTIONS_OFFSET as int,
                    i as int,
                ),
                raw.len() < OPTIONS_OFFSET ==> options@ == Seq::<u8>::empty(),
            decreases raw.len() - i,
        {
            options.push(raw[i]);
            assert(options@ =~= raw@.subrange(OPTIONS_OFFSET as int, i + 1));
            i += 1;
        }
        assert(raw.len() >= OPTIONS_OFFSET ==> options@ =~= raw@.skip(OPTIONS_OFFSET as int));
        Dhcpv4Packet { options }
    }

    /// The bytes of the options area.
    pub fn raw_options(&self) -> (raw: &Vec<u8>)
        ensures
            raw@ == self@,
    {
        &self.options
    }

    /// The options of the packet, in order.
    pub fn dhcp_options(&self) -> (list: Vec<DhcpOption>)
        ensures
            option_views(list@) == options(self@),
    {
        let raw = &self.options;
        let mut list: Vec<DhcpOption> = Vec::new();
        let mut pos: usize = 0;
        let mut done = false;
        assert(raw@.skip(0) =~= raw@);
        assert(option_views(list@) =~= Seq::<OptionView>::empty());
        while pos < raw.len() && !done
            invariant
                pos <= raw.len(),
                options(raw@) == option_views(list@) + (if done {
                    Seq::<OptionView>::empty()
                } else {
                    options(raw@.skip(pos as int))
                }),
            decreases raw.len() - pos + (if done { 0int } else { 1int }),
        {
            let ghost rest = raw@.skip(pos as int);
            let ghost before = option_views(list@);
            let code = raw[pos];
            assert(rest[0] == code);
            if code == END {
                done = true;
            } else if code == PAD {
                assert(rest.skip(1) =~= raw@.skip(pos + 1));
                pos += 1;
            } else if raw.len() - pos < 2 || raw.len() - pos - 2 < raw[pos + 1] as usize {
                assert(rest.len() >= 2 ==> rest[1] == raw@[pos + 1]);
                list.push(DhcpOption { code, value: None });
                assert(option_views(list@) =~= before + seq![OptionView { code, value: None }]);
                done = true;
            } else {
                let length = raw[pos + 1] as usize;
                assert(rest[1] == raw@[pos + 1]);
                let value = copy_range(raw, pos + 2, pos + 2 + length);
                assert(rest.subrange(2, 2 + length) =~= raw@.subrange(pos + 2, pos + 2 + length));
                assert(rest.skip(2 + length) =~= raw@.skip(pos + 2 + length));
                list.push(DhcpOption { code, value: Some(value) });
                assert(option_views(list@) =~= before + seq![
                    OptionView { code, value: Some(rest.subrange(2, 2 + length)) },
                ]);
                pos = pos + 2 + length;
            }
        }
        assert(option_views(list@) + Seq::<OptionView>::empty() =~= option_views(list@));
        list
    }

    /// The first option of the packet with this code, if there is one.
    pub fn dhcp_option(&self, code: u8) -> (found: Option<DhcpOption>)
        ensures
            match found {
                Some(option) => first_with_code(options(self@), code) == Some(option@),
                None => first_with_code(options(self@), code) is None,
            },
    {
        let mut list = self.dhcp_options();
        let ghost all = option_views(list@);
        let mut i: usize = 0;
        assert(all.skip(0) =~= all);
        while i < list.len()
            invariant
                i <= list.len(),
                all == option_views(list@),
                all == options(self@),
                first_with_code(all, code) == first_with_code(all.skip(i as int), code),
            decreases list.len() - i,
        {
            assert(all.skip(i as int)[0] == list@[i as int]@);
            if list[i].code == code {
                let ghost target = list@[i as int]@;
                assert(first_with_code(all.skip(i as int), code) == Some(target));
                let option = list.swap_remove(i);
                assert(option@ == target);
                return Some(option);
            }
            assert(all.skip(i as int).skip(1) =~= all.skip(i + 1));
            i += 1;
        }
        None
    }
}

/// The acknowledgement of a DHCP exchange, in either version of the
/// protocol.
#[derive(Debug, PartialEq, Eq)]
pub enum DhcpPacket {
    Dhcpv4(Dhcpv4Packet),
    Dhcpv6,
}

impl DhcpPacket {
    /// The packet as a DHCPv4 packet, if it is one.
    pub fn as_dhcpv4(&self) -> (packet: Option<&Dhcpv4Packet>)
        ensures
            match packet {
                Some(p) => *self == DhcpPacket::Dhcpv4(*p),
                None => *self == DhcpPacket::Dhcpv6,
            },
    {
        match self {
            DhcpPacket::Dhcpv4(packet) => Some(packet),
            DhcpPacket::Dhcpv6 => None,
        }
    }
}

} // verus!
