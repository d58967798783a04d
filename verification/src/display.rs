//! What the command line shows: read data as hexadecimal or ASCII lines,
//! hex dumps, the I2C scan grid, the device report and 1-Wire ROM IDs.
//! Each function gives the lines; printing them is the caller's part.

use vstd::prelude::*;
use crate::text::{push_char, push_str, push_decimal, spec_decimal, spec_digit, spec_hex_byte, push_hex_byte};
use crate::device::{DeviceInfo, VersionInfo, Capabilities};
use crate::onewire::spec_family_code;

verus! {

/// How read data is shown.
#[derive(Debug, Clone, Copy, PartialEq, Eq, Structural)]
pub enum OutputFormat {
    /// Hexadecimal bytes, sixteen per line (the default).
    Hex,
    /// Raw bytes.
    Binary,
    /// Printable characters, others as `.`, sixteen per line.
    Ascii,
}

impl Default for OutputFormat {
    fn default() -> (res: OutputFormat)
        ensures
            res == OutputFormat::Hex,
    {
        OutputFormat::Hex
    }
}

/// How a byte shows as text: printable ASCII and space as themselves,
/// anything else as `.`.
pub open spec fn spec_ascii_char(b: u8) -> char {
    if 0x20 <= b <= 0x7e {
        b as char
    } else {
        '.'
    }
}

fn ascii_char(b: u8) -> (c: char)
    ensures
        c == spec_ascii_char(b),
{
    if 0x20 <= b && b <= 0x7e {
        b as char
    } else {
        '.'
    }
}

/// The `k`-th group of sixteen bytes of `data` (the last may be shorter).
pub open spec fn spec_chunk(data: Seq<u8>, k: int) -> Seq<u8> {
    data.subrange(16 * k, if 16 * k + 16 < data.len() { 16 * k + 16 } else { data.len() as int })
}

/// The number of groups of sixteen bytes in `n` bytes.
pub open spec fn spec_chunk_count(n: nat) -> nat {
    (n + 15) / 16
}

/// A group shown in hexadecimal: each byte as two digits and a space.
pub open spec fn spec_hex_group(chunk: Seq<u8>) -> Seq<char>
    decreases chunk.len(),
{
    if chunk.len() == 0 {
        Seq::empty()
    } else {
        spec_hex_group(chunk.drop_last()) + spec_hex_byte(chunk.last()) + seq![' ']
    }
}

/// A group shown as ASCII.
pub open spec fn spec_ascii_group(chunk: Seq<u8>) -> Seq<char> {
    chunk.map_values(|b: u8| spec_ascii_char(b))
}

/// The lines that show `data` in a format: one per group of sixteen
/// bytes, or a single empty line for no data. Binary data has no lines.
pub open spec fn spec_data_line(data: Seq<u8>, format: OutputFormat, k: int) -> Seq<char> {
    match format {
        OutputFormat::Ascii => spec_ascii_group(spec_chunk(data, k)),
        _ => spec_hex_group(spec_chunk(data, k)),
    }
}

/// The text of one group in hexadecimal or ASCII.
fn group_text(data: &[u8], from: usize, to: usize, ascii: bool) -> (res: String)
    requires
        from <= to <= data@.len(),
    ensures
        ascii ==> res@ == spec_ascii_group(data@.subrange(from as int, to as int)),
        !ascii ==> res@ == spec_hex_group(data@.subrange(from as int, to as int)),
{
    let mut s = String::new();
    let mut i: usize = from;
    while i < to
        invariant
            from <= i <= to <= data@.len(),
            ascii ==> s@ == spec_ascii_group(data@.subrange(from as int, i as int)),
            !ascii ==> s@ == spec_hex_group(data@.subrange(from as int, i as int)),
        decreases to - i,
    {
        let ghost pre = data@.subrange(from as int, i as int);
        let ghost next = data@.subrange(from as int, i + 1);
        assert(next.drop_last() =~= pre);
        assert(next.last() == data@[i as int]);
        if ascii {
            push_char(&mut s, ascii_char(data[i]));
            assert(spec_ascii_group(next) =~= spec_ascii_group(pre).push(spec_ascii_char(data@[i as int])));
        } else {
            push_hex_byte(&mut s, data[i]);
            push_char(&mut s, ' ');
            assert(s@ =~= spec_hex_group(next));
        }
        i = i + 1;
    }
    s
}

/// The lines that show read data in hexadecimal or ASCII: sixteen bytes
/// per line, or one empty line when there is no data. For the binary
/// format there is nothing to show as lines.
pub fn data_lines(data: &[u8], format: OutputFormat) -> (res: Vec<String>)
    ensures
        format == OutputFormat::Binary ==> res@.len() == 0,
        format != OutputFormat::Binary && data@.len() == 0 ==> res@.len() == 1 && res@[0]@
            == Seq::<char>::empty(),
        format != OutputFormat::Binary && data@.len() > 0 ==> res@.len() == spec_chunk_count(
            data@.len(),
        ) && forall|k: int| 0 <= k < res@.len() ==> (#[trigger] res@[k])@ == spec_data_line(data@, format, k),
{
    let mut lines: Vec<String> = Vec::new();
    if let OutputFormat::Binary = format {
        return lines;
    }
    if data.len() == 0 {
        lines.push(String::new());
        return lines;
    }
    let ascii = match format {
        OutputFormat::Ascii => true,
        _ => false,
    };
    let mut from: usize = 0;
    while from < data.len()
        invariant
            data@.len() > 0,
            format != OutputFormat::Binary,
            ascii == (format == OutputFormat::Ascii),
            from <= data@.len(),
            from < data@.len() ==> from == 16 * lines@.len(),
            from == data@.len() ==> lines@.len() == spec_chunk_count(data@.len()),
            16 * lines@.len() <= data@.len() + 15,
            forall|j: int| 0 <= j < lines@.len() ==> (#[trigger] lines@[j])@ == spec_data_line(data@, format, j),
        decreases data@.len() - from,
    {
        let ghost k = lines@.len();
        let end = if data.len() - from > 16 { from + 16 } else { data.len() };
        let line = group_text(data, from, end, ascii);
        lines.push(line);
        assert(lines@[k as int]@ == spec_data_line(data@, format, k as int));
        from = end;
    }
    lines
}

/// The lower-case hexadecimal numeral of `n`, with no leading zeros.
pub open spec fn spec_hex(n: nat) -> Seq<char>
    decreases n,
{
    if n < 16 {
        seq![spec_digit(n)]
    } else {
        spec_hex(n / 16).push(spec_digit(n % 16))
    }
}

/// `s` padded on the left with zeros to at least `width` characters.
pub open spec fn spec_zero_pad(s: Seq<char>, width: nat) -> Seq<char> {
    if s.len() >= width {
        s
    } else {
        Seq::new((width - s.len()) as nat, |i: int| '0') + s
    }
}

/// Appends the hexadecimal numeral of `n`.
fn push_hex(s: &mut String, n: u64)
    ensures
        final(s)@ == old(s)@ + spec_hex(n as nat),
    decreases n,
{
    if n >= 16 {
        push_hex(s, n / 16);
    }
    let c = crate::text::digit_char((n % 16) as u8);
    push_char(s, c);
    proof {
        if n < 16 {
            assert(old(s)@ + spec_hex(n as nat) =~= old(s)@.push(c));
        }
    }
}

/// The hexadecimal numeral of `n` padded with zeros to `width`, as
/// `{:0width$x}` gives it.
pub fn hex_padded(n: u64, width: usize) -> (res: String)
    ensures
        res@ == spec_zero_pad(spec_hex(n as nat), width as nat),
{
    let mut digits = String::new();
    push_hex(&mut digits, n);
    let len = digits.as_str().unicode_len();
    let mut s = String::new();
    if len < width {
        let mut i: usize = 0;
        while i < width - len
            invariant
                len < width,
                i <= width - len,
                s@ == Seq::new(i as nat, |j: int| '0'),
            decreases width - len - i,
        {
            push_char(&mut s, '0');
            assert(s@ =~= Seq::new((i + 1) as nat, |j: int| '0'));
            i = i + 1;
        }
    }
    push_str(&mut s, digits.as_str());
    assert(s@ =~= spec_zero_pad(spec_hex(n as nat), width as nat));
    s
}

/// A group's bytes in hexadecimal, joined by single spaces.
pub open spec fn spec_hex_join(chunk: Seq<u8>) -> Seq<char>
    decreases chunk.len(),
{
    if chunk.len() == 0 {
        Seq::empty()
    } else if chunk.len() == 1 {
        spec_hex_byte(chunk[0])
    } else {
        spec_hex_join(chunk.drop_last()) + seq![' '] + spec_hex_byte(chunk.last())
    }
}

/// `s` padded on the right with spaces to at least `width` characters.
pub open spec fn spec_space_pad(s: Seq<char>, width: nat) -> Seq<char> {
    if s.len() >= width {
        s
    } else {
        s + Seq::new((width - s.len()) as nat, |i: int| ' ')
    }
}

/// One line of a hex dump: `  oooo: xx xx ...  ascii`, the offset in at
/// least four hexadecimal digits and the hexadecimal part padded to 48.
pub open spec fn spec_dump_line(chunk: Seq<u8>, offset: nat) -> Seq<char> {
    "  "@ + spec_zero_pad(spec_hex(offset), 4) + ": "@ + spec_space_pad(spec_hex_join(chunk), 48)
        + "  "@ + spec_ascii_group(chunk)
}

proof fn lemma_hex_join_len(chunk: Seq<u8>)
    ensures
        chunk.len() > 0 ==> spec_hex_join(chunk).len() == 3 * chunk.len() - 1,
        chunk.len() == 0 ==> spec_hex_join(chunk).len() == 0,
    decreases chunk.len(),
{
    if chunk.len() > 1 {
        lemma_hex_join_len(chunk.drop_last());
    }
}

/// One hex-dump line of `data[from..to]`, labelled with offset `from`.
fn dump_line(data: &[u8], from: usize, to: usize) -> (res: String)
    requires
        from <= to <= data@.len(),
        to - from <= 16,
    ensures
        res@ == spec_dump_line(data@.subrange(from as int, to as int), from as nat),
{
    let ghost chunk = data@.subrange(from as int, to as int);
    let mut s = String::new();
    push_str(&mut s, "  ");
    let off = hex_padded(from as u64, 4);
    push_str(&mut s, off.as_str());
    push_str(&mut s, ": ");
    let ghost head = s@;
    let mut hex = String::new();
    let mut i: usize = from;
    while i < to
        invariant
            from <= i <= to <= data@.len(),
            hex@ == spec_hex_join(data@.subrange(from as int, i as int)),
        decreases to - i,
    {
        let ghost pre = data@.subrange(from as int, i as int);
        let ghost next = data@.subrange(from as int, i + 1);
        assert(next.drop_last() =~= pre);
        assert(next.last() == data@[i as int]);
        if i > from {
            push_char(&mut hex, ' ');
        }
        push_hex_byte(&mut hex, data[i]);
        proof {
            if i == from {
                assert(next.len() == 1);
                assert(next[0] == data@[i as int]);
                assert(hex@ =~= spec_hex_join(next));
            } else {
                assert(hex@ =~= spec_hex_join(next));
            }
        }
        i = i + 1;
    }
    proof {
        lemma_hex_join_len(chunk);
    }
    let hex_len = hex.as_str().unicode_len();
    push_str(&mut s, hex.as_str());
    let mut pad: usize = hex_len;
    while pad < 48
        invariant
            hex_len <= pad <= 48,
            hex_len == spec_hex_join(chunk).len(),
            s@ == head + spec_hex_join(chunk) + Seq::new((pad - hex_len) as nat, |j: int| ' '),
        decreases 48 - pad,
    {
        push_char(&mut s, ' ');
        assert(s@ =~= head + spec_hex_join(chunk) + Seq::new((pad + 1 - hex_len) as nat, |j: int| ' '));
        pad = pad + 1;
    }
    assert(head + spec_hex_join(chunk) + Seq::new((pad - hex_len) as nat, |j: int| ' ') =~= head
        + spec_space_pad(spec_hex_join(chunk), 48));
    push_str(&mut s, "  ");
    let asc = group_text(data, from, to, true);
    push_str(&mut s, asc.as_str());
    assert(s@ =~= spec_dump_line(chunk, from as nat));
    s
}

/// The lines of a hex dump of `data`: one per group of sixteen bytes.
pub fn hex_dump_lines(data: &[u8]) -> (res: Vec<String>)
    ensures
        res@.len() == spec_chunk_count(data@.len()),
        forall|k: int| 0 <= k < res@.len() ==> (#[trigger] res@[k])@ == spec_dump_line(spec_chunk(data@, k), (16 * k) as nat),
{
    let mut lines: Vec<String> = Vec::new();
    let mut from: usize = 0;
    while from < data.len()
        invariant
            from <= data@.len(),
            from < data@.len() ==> from == 16 * lines@.len(),
            from == data@.len() ==> lines@.len() == spec_chunk_count(data@.len()),
            data@.len() == 0 ==> lines@.len() == 0,
            16 * lines@.len() <= data@.len() + 15,
            forall|j: int| 0 <= j < lines@.len() ==> (#[trigger] lines@[j])@ == spec_dump_line(spec_chunk(data@, j), (16 * j) as nat),
        decreases data@.len() - from,
    {
        let ghost k = lines@.len();
        let end = if data.len() - from > 16 { from + 16 } else { data.len() };
        let line = dump_line(data, from, end);
        lines.push(line);
        assert(lines@[k as int]@ == spec_dump_line(spec_chunk(data@, k as int), (16 * k) as nat));
        from = end;
    }
    lines
}

/// What the scan grid shows for an address: `RR` for a reserved address
/// (0x00–0x07, 0x78–0x7F) that was not scanned, the address in two
/// hexadecimal digits when a device answered, `--` otherwise.
pub open spec fn spec_scan_cell(address: u8, found: Seq<u8>, reserved: bool) -> Seq<char> {
    if !reserved && (address <= 0x07 || address >= 0x78) {
        "RR"@
    } else if found.contains(address) {
        spec_hex_byte(address)
    } else {
        "--"@
    }
}

/// One cell of the I2C scan grid.
pub fn scan_cell(address: u8, found: &[u8], reserved: bool) -> (res: String)
    ensures
        res@ == spec_scan_cell(address, found@, reserved),
{
    if !reserved && (address <= 0x07 || address >= 0x78) {
        return crate::text::text_of("RR");
    }
    let mut i: usize = 0;
    while i < found.len()
        invariant
            i <= found@.len(),
            reserved || (0x07 < address && address < 0x78),
            forall|j: int| 0 <= j < i ==> found@[j] != address,
        decreases found@.len() - i,
    {
        if found[i] == address {
            assert(found@[i as int] == address);
            assert(found@.contains(address));
            let mut s = String::new();
            push_hex_byte(&mut s, address);
            assert(s@ =~= spec_hex_byte(address));
            return s;
        }
        i = i + 1;
    }
    crate::text::text_of("--")
}

/// The I2C scan grid: eight rows of sixteen cells, row `hi` holding the
/// addresses `hi * 16 + lo`.
pub fn scan_grid(found: &[u8], reserved: bool) -> (res: Vec<Vec<String>>)
    ensures
        res@.len() == 8,
        forall|hi: int| 0 <= hi < 8 ==> (#[trigger] res@[hi])@.len() == 16,
        forall|hi: int, lo: int|
            0 <= hi < 8 && 0 <= lo < 16 ==> (#[trigger] res@[hi]@[lo])@ == spec_scan_cell(
                (16 * hi + lo) as u8,
                found@,
                reserved,
            ),
{
    let mut rows: Vec<Vec<String>> = Vec::new();
    let mut hi: u8 = 0;
    while hi < 8
        invariant
            hi <= 8,
            rows@.len() == hi,
            forall|h: int| 0 <= h < hi ==> (#[trigger] rows@[h])@.len() == 16,
            forall|h: int, lo: int|
                0 <= h < hi && 0 <= lo < 16 ==> (#[trigger] rows@[h]@[lo])@ == spec_scan_cell(
                    (16 * h + lo) as u8,
                    found@,
                    reserved,
                ),
        decreases 8 - hi,
    {
        let mut row: Vec<String> = Vec::new();
        let mut lo: u8 = 0;
        while lo < 16
            invariant
                hi < 8,
                lo <= 16,
                row@.len() == lo,
                forall|l: int| 0 <= l < lo ==> (#[trigger] row@[l])@ == spec_scan_cell(
                    (16 * hi + l) as u8,
                    found@,
                    reserved,
                ),
            decreases 16 - lo,
        {
            row.push(scan_cell(hi * 16 + lo, found, reserved));
            lo = lo + 1;
        }
        rows.push(row);
        hi = hi + 1;
    }
    rows
}

/// `✓` for a capability the device has, `✗` otherwise.
pub open spec fn spec_mark(caps: Capabilities, flag: Capabilities) -> char {
    if caps.spec_contains(flag) {
        '\u{2713}'
    } else {
        '\u{2717}'
    }
}

/// The report of a device that answers the device-information request:
/// firmware version, schema version, hardware revision, and a mark for
/// each capability.
pub open spec fn spec_device_report(info: DeviceInfo) -> Seq<Seq<char>> {
    let c = info.capabilities;
    seq![
        "Pico de Gallo FW v"@ + spec_decimal(info.fw_major as nat) + "."@ + spec_decimal(info.fw_minor as nat)
            + "."@ + spec_decimal(info.fw_patch as nat),
        "Schema v"@ + spec_decimal(info.schema_major as nat) + "."@ + spec_decimal(info.schema_minor as nat)
            + "."@ + spec_decimal(info.schema_patch as nat),
        "HW revision "@ + spec_decimal(info.hw_version as nat),
        "Capabilities: I2C "@ + seq![spec_mark(c, Capabilities(1))] + " | SPI "@ + seq![spec_mark(c, Capabilities(2))]
            + " | UART "@ + seq![spec_mark(c, Capabilities(4))] + " | GPIO "@ + seq![spec_mark(c, Capabilities(8))]
            + " | PWM "@ + seq![spec_mark(c, Capabilities(16))] + " | ADC "@ + seq![spec_mark(c, Capabilities(32))]
            + " | 1-Wire "@ + seq![spec_mark(c, Capabilities(64))],
    ]
}

fn push_version(s: &mut String, major: u16, minor: u16, patch: u32)
    ensures
        final(s)@ == old(s)@ + spec_decimal(major as nat) + "."@ + spec_decimal(minor as nat) + "."@
            + spec_decimal(patch as nat),
{
    push_decimal(s, major as u64);
    push_str(s, ".");
    push_decimal(s, minor as u64);
    push_str(s, ".");
    push_decimal(s, patch as u64);
    assert(s@ =~= old(s)@ + spec_decimal(major as nat) + "."@ + spec_decimal(minor as nat) + "."@
        + spec_decimal(patch as nat));
}

fn push_mark(s: &mut String, label: &str, caps: Capabilities, flag: Capabilities)
    ensures
        final(s)@ == old(s)@ + label@ + seq![spec_mark(caps, flag)],
{
    push_str(s, label);
    if caps.contains(flag) {
        push_char(s, '\u{2713}');
    } else {
        push_char(s, '\u{2717}');
    }
    assert(s@ =~= old(s)@ + label@ + seq![spec_mark(caps, flag)]);
}

/// The lines of the device report.
pub fn device_report(info: &DeviceInfo) -> (res: Vec<String>)
    ensures
        res@.map_values(|s: String| s@) == spec_device_report(*info),
{
    let mut a = String::new();
    push_str(&mut a, "Pico de Gallo FW v");
    push_version(&mut a, info.fw_major, info.fw_minor, info.fw_patch);
    let mut b = String::new();
    push_str(&mut b, "Schema v");
    push_version(&mut b, info.schema_major, info.schema_minor, info.schema_patch);
    let mut c = String::new();
    push_str(&mut c, "HW revision ");
    push_decimal(&mut c, info.hw_version as u64);
    let caps = info.capabilities;
    let mut d = String::new();
    push_mark(&mut d, "Capabilities: I2C ", caps, Capabilities::I2C());
    push_mark(&mut d, " | SPI ", caps, Capabilities::SPI());
    push_mark(&mut d, " | UART ", caps, Capabilities::UART());
    push_mark(&mut d, " | GPIO ", caps, Capabilities::GPIO());
    push_mark(&mut d, " | PWM ", caps, Capabilities::PWM());
    push_mark(&mut d, " | ADC ", caps, Capabilities::ADC());
    push_mark(&mut d, " | 1-Wire ", caps, Capabilities::ONEWIRE());
    let mut lines: Vec<String> = Vec::new();
    lines.push(a);
    lines.push(b);
    lines.push(c);
    lines.push(d);
    assert(lines@.map_values(|s: String| s@) =~= spec_device_report(*info));
    lines
}

/// The report of a legacy device that only answers the version request.
pub fn legacy_version_report(v: &VersionInfo) -> (res: Vec<String>)
    ensures
        res@.len() == 2,
        res@[0]@ == "Pico de Gallo FW v"@ + spec_decimal(v.major as nat) + "."@ + spec_decimal(
            v.minor as nat,
        ) + "."@ + spec_decimal(v.patch as nat),
        res@[1]@ == "(legacy firmware \u{2014} no schema/hw/capabilities info)"@,
{
    let mut a = String::new();
    push_str(&mut a, "Pico de Gallo FW v");
    push_version(&mut a, v.major, v.minor, v.patch);
    let b = crate::text::text_of("(legacy firmware \u{2014} no schema/hw/capabilities info)");
    let mut lines: Vec<String> = Vec::new();
    lines.push(a);
    lines.push(b);
    lines
}

/// The upper-case hexadecimal numeral of `n`, with no leading zeros.
pub open spec fn spec_upper_hex(n: nat) -> Seq<char>
    decreases n,
{
    if n < 16 {
        seq![spec_upper(n)]
    } else {
        spec_upper_hex(n / 16).push(spec_upper(n % 16))
    }
}

/// The upper-case character of a digit value below sixteen.
pub open spec fn spec_upper(d: nat) -> char {
    if d < 10 {
        (48 + d) as char
    } else {
        (55 + d) as char
    }
}

fn upper_char(d: u8) -> (c: char)
    requires
        d < 16,
    ensures
        c == spec_upper(d as nat),
{
    if d < 10 {
        (48u8 + d) as char
    } else {
        (55u8 + d) as char
    }
}

fn push_upper_hex(s: &mut String, n: u64)
    ensures
        final(s)@ == old(s)@ + spec_upper_hex(n as nat),
    decreases n,
{
    if n >= 16 {
        push_upper_hex(s, n / 16);
    }
    let c = upper_char((n % 16) as u8);
    push_char(s, c);
    proof {
        if n < 16 {
            assert(old(s)@ + spec_upper_hex(n as nat) =~= old(s)@.push(c));
        }
    }
}

fn push_upper_padded(s: &mut String, n: u64, width: usize)
    ensures
        final(s)@ == old(s)@ + spec_zero_pad(spec_upper_hex(n as nat), width as nat),
{
    let mut digits = String::new();
    push_upper_hex(&mut digits, n);
    let len = digits.as_str().unicode_len();
    let ghost start = s@;
    if len < width {
        let mut i: usize = 0;
        while i < width - len
            invariant
                len < width,
                i <= width - len,
                s@ == start + Seq::new(i as nat, |j: int| '0'),
            decreases width - len - i,
        {
            push_char(s, '0');
            assert(s@ =~= start + Seq::new((i + 1) as nat, |j: int| '0'));
            i = i + 1;
        }
    }
    push_str(s, digits.as_str());
    assert(s@ =~= start + spec_zero_pad(spec_upper_hex(n as nat), width as nat));
}

/// The line listing the `index`-th (from 1) ROM ID found by a search:
/// the ID in sixteen upper-case hexadecimal digits and its family code.
pub open spec fn spec_rom_line(index: nat, id: u64) -> Seq<char> {
    "  "@ + spec_decimal(index) + ": ROM ID 0x"@ + spec_zero_pad(spec_upper_hex(id as nat), 16)
        + " (family 0x"@ + spec_zero_pad(spec_upper_hex(spec_family_code(id) as nat), 2) + ")"@
}

/// The lines of a ROM search result: a count, then one line per ID.
pub fn rom_id_lines(ids: &[u64]) -> (res: Vec<String>)
    ensures
        res@.len() == ids@.len() + 1,
        res@[0]@ == "Found "@ + spec_decimal(ids@.len()) + " device(s):"@,
        forall|i: int| 0 <= i < ids@.len() ==> (#[trigger] res@[i + 1])@ == spec_rom_line((i + 1) as nat, ids@[i]),
{
    let mut lines: Vec<String> = Vec::new();
    let mut head = String::new();
    push_str(&mut head, "Found ");
    push_decimal(&mut head, ids.len() as u64);
    push_str(&mut head, " device(s):");
    assert(head@ =~= "Found "@ + spec_decimal(ids@.len()) + " device(s):"@);
    lines.push(head);
    let mut i: usize = 0;
    while i < ids.len()
        invariant
            i <= ids@.len(),
            lines@.len() == i + 1,
            lines@[0]@ == "Found "@ + spec_decimal(ids@.len()) + " device(s):"@,
            forall|j: int| 0 <= j < i ==> (#[trigger] lines@[j + 1])@ == spec_rom_line((j + 1) as nat, ids@[j]),
        decreases ids@.len() - i,
    {
        let id = ids[i];
        let mut s = String::new();
        push_str(&mut s, "  ");
        push_decimal(&mut s, (i + 1) as u64);
        push_str(&mut s, ": ROM ID 0x");
        push_upper_padded(&mut s, id, 16);
        push_str(&mut s, " (family 0x");
        let fam = crate::onewire::family_code(id);
        push_upper_padded(&mut s, fam as u64, 2);
        push_str(&mut s, ")");
        assert(s@ =~= spec_rom_line((i + 1) as nat, id));
        lines.push(s);
        i = i + 1;
    }
    lines
}

/// A group in hexadecimal is three characters per byte: its high digit,
/// its low digit, a space.
proof fn lemma_hex_group_shape(chunk: Seq<u8>)
    ensures
        spec_hex_group(chunk).len() == 3 * chunk.len(),
        forall|j: int|
            0 <= j < chunk.len() ==> {
                &&& spec_hex_group(chunk)[3 * j] == spec_digit((#[trigger] chunk[j] / 16) as nat)
                &&& spec_hex_group(chunk)[3 * j + 1] == spec_digit((chunk[j] % 16) as nat)
                &&& spec_hex_group(chunk)[3 * j + 2] == ' '
            },
    decreases chunk.len(),
{
    if chunk.len() > 0 {
        let init = chunk.drop_last();
        lemma_hex_group_shape(init);
        let g = spec_hex_group(chunk);
        let gi = spec_hex_group(init);
        let b = chunk.last();
        assert(g == gi + spec_hex_byte(b) + seq![' ']);
        assert forall|j: int| 0 <= j < chunk.len() implies {
            &&& spec_hex_group(chunk)[3 * j] == spec_digit((#[trigger] chunk[j] / 16) as nat)
            &&& spec_hex_group(chunk)[3 * j + 1] == spec_digit((chunk[j] % 16) as nat)
            &&& spec_hex_group(chunk)[3 * j + 2] == ' '
        } by {
            if j < init.len() {
                assert(init[j] == chunk[j]);
            } else {
                assert(j == init.len());
            }
        }
    }
}

/// The lower-case hexadecimal digit of a value below sixteen.
pub open spec fn spec_lower_hex_digit(d: int) -> char {
    if d < 10 {
        (48 + d) as char
    } else {
        (87 + d) as char
    }
}

/// In the hexadecimal format, line `k` shows the bytes `16k..` (sixteen at
/// most) each as two lower-case hexadecimal digits followed by a space.
pub proof fn lemma_hex_lines_show_hex_digits(data: Seq<u8>, k: int)
    requires
        0 <= k,
        16 * k < data.len(),
    ensures
        ({
            let line = spec_data_line(data, OutputFormat::Hex, k);
            let end = if 16 * k + 16 < data.len() { 16 * k + 16 } else { data.len() as int };
            &&& line.len() == 3 * (end - 16 * k)
            &&& forall|i: int|
                16 * k <= i < end ==> {
                    &&& line[3 * (i - 16 * k)] == spec_lower_hex_digit((#[trigger] data[i] / 16) as int)
                    &&& line[3 * (i - 16 * k) + 1] == spec_lower_hex_digit((data[i] % 16) as int)
                    &&& line[3 * (i - 16 * k) + 2] == ' '
                }
        }),
{
    let chunk = spec_chunk(data, k);
    lemma_hex_group_shape(chunk);
    let end = if 16 * k + 16 < data.len() { 16 * k + 16 } else { data.len() as int };
    assert forall|i: int| 16 * k <= i < end implies {
        &&& spec_data_line(data, OutputFormat::Hex, k)[3 * (i - 16 * k)] == spec_lower_hex_digit((#[trigger] data[i] / 16) as int)
        &&& spec_data_line(data, OutputFormat::Hex, k)[3 * (i - 16 * k) + 1] == spec_lower_hex_digit((data[i] % 16) as int)
        &&& spec_data_line(data, OutputFormat::Hex, k)[3 * (i - 16 * k) + 2] == ' '
    } by {
        let j = i - 16 * k;
        assert(chunk[j] == data[i]);
    }
}

/// In the ASCII format, line `k` shows the bytes `16k..` (sixteen at
/// most) one character each: printable ASCII and space as themselves,
/// anything else as `.`.
pub proof fn lemma_ascii_lines_show_characters(data: Seq<u8>, k: int)
    requires
        0 <= k,
        16 * k < data.len(),
    ensures
        ({
            let line = spec_data_line(data, OutputFormat::Ascii, k);
            let end = if 16 * k + 16 < data.len() { 16 * k + 16 } else { data.len() as int };
            &&& line.len() == end - 16 * k
            &&& forall|i: int|
                16 * k <= i < end ==> line[i - 16 * k] == if 0x20 <= #[trigger] data[i] <= 0x7e {
                    data[i] as char
                } else {
                    '.'
                }
        }),
{
    let chunk = spec_chunk(data, k);
    let end = if 16 * k + 16 < data.len() { 16 * k + 16 } else { data.len() as int };
    assert forall|i: int| 16 * k <= i < end implies spec_data_line(data, OutputFormat::Ascii, k)[i - 16 * k]
        == if 0x20 <= #[trigger] data[i] <= 0x7e {
        data[i] as char
    } else {
        '.'
    } by {
        assert(chunk[i - 16 * k] == data[i]);
    }
}

/// A scan cell of an ordinary address (0x08 to 0x77), or of any address
/// when reserved addresses were scanned, shows the address in two
/// lower-case hexadecimal digits when a device answered there and `--`
/// otherwise; `RR` stands only for the reserved addresses 0x00 to 0x07
/// and 0x78 to 0x7F when they were not scanned.
pub proof fn lemma_scan_cell_shows_found_devices(address: u8, found: Seq<u8>, reserved: bool)
    ensures
        (reserved || 0x08 <= address <= 0x77) ==> spec_scan_cell(address, found, reserved) == if found.contains(
            address,
        ) {
            seq![spec_lower_hex_digit((address / 16) as int), spec_lower_hex_digit((address % 16) as int)]
        } else {
            "--"@
        },
        (!reserved && (address < 0x08 || address > 0x77)) ==> spec_scan_cell(address, found, reserved)
            == "RR"@,
{
}

/// A capability shows as a check mark exactly when every bit of its flag
/// is set in the device's capabilities, and as a cross otherwise.
pub proof fn lemma_mark_shows_capability(caps: Capabilities, flag: Capabilities)
    ensures
        (caps.0 & flag.0) == flag.0 ==> spec_mark(caps, flag) == '\u{2713}',
        (caps.0 & flag.0) != flag.0 ==> spec_mark(caps, flag) == '\u{2717}',
{
}

} // verus!
