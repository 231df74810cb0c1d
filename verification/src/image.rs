//! Headers of the merged flash image: the boot loader, the partition table and
//! the application must start with what the chip's loader expects.

use crate::text;
use vstd::prelude::*;
use vstd::string::*;

verus! {

/// Bytes that must stand at an offset.
pub struct Header {
    pub offset: u64,
    pub bytes: Vec<u8>,
}

/// The headers of an image: offset and bytes.
pub open spec fn expected_headers() -> Seq<(int, Seq<u8>)> {
    seq![
        (0x0, seq![0xe9u8]),
        // DIO; QIO (0x00) fails in the ROM loader.
        (0x2, seq![0x02u8]),
        (0x8000, seq![0xaau8, 0x50u8]),
        (0x10000, seq![0xe9u8]),
        (0x10002, seq![0x02u8]),
    ]
}

/// Whether a header stands where it must.
pub open spec fn has_header(image: Seq<u8>, header: (int, Seq<u8>)) -> bool {
    &&& header.0 + header.1.len() <= image.len()
    &&& image.subrange(header.0, header.0 + header.1.len()) == header.1
}

/// What is wrong with an image.
pub enum HeaderError {
    /// The image ends before the header.
    Short { offset: u64 },
    Invalid { offset: u64, expected: Vec<u8>, actual: Vec<u8> },
}

/// The first header from number `from` on that does not stand where it must, or
/// the number of headers.
pub open spec fn first_bad(image: Seq<u8>, from: int) -> int
    decreases expected_headers().len() - from,
{
    if from >= expected_headers().len() || !has_header(image, expected_headers()[from]) {
        from
    } else {
        first_bad(image, from + 1)
    }
}

fn header(index: usize) -> (header: Header)
    requires
        index < 5,
    ensures
        header.offset == expected_headers()[index as int].0,
        header.bytes@ == expected_headers()[index as int].1,
        header.bytes@.len() > 0,
        header.offset + header.bytes@.len() <= 0x10003,
{
    let mut bytes: Vec<u8> = Vec::new();
    if index == 0 {
        bytes.push(0xe9);
        assert(bytes@ =~= seq![0xe9u8]);
        Header { offset: 0x0, bytes }
    } else if index == 1 {
        bytes.push(0x02);
        assert(bytes@ =~= seq![0x02u8]);
        Header { offset: 0x2, bytes }
    } else if index == 2 {
        bytes.push(0xaa);
        bytes.push(0x50);
        assert(bytes@ =~= seq![0xaau8, 0x50u8]);
        Header { offset: 0x8000, bytes }
    } else if index == 3 {
        bytes.push(0xe9);
        assert(bytes@ =~= seq![0xe9u8]);
        Header { offset: 0x10000, bytes }
    } else {
        bytes.push(0x02);
        assert(bytes@ =~= seq![0x02u8]);
        Header { offset: 0x10002, bytes }
    }
}

fn same_bytes(a: &Vec<u8>, b: &Vec<u8>) -> (same: bool)
    ensures
        same == (a@ == b@),
{
    if a.len() != b.len() {
        return false;
    }
    let mut i: usize = 0;
    while i < a.len()
        invariant
            i <= a@.len(),
            a@.len() == b@.len(),
            forall|j: int| 0 <= j < i ==> a@[j] == b@[j],
        decreases a@.len() - i,
    {
        if a[i] != b[i] {
            return false;
        }
        i += 1;
    }
    assert(a@ =~= b@);
    true
}

/// Whether all headers of an image stand where they must; else what is wrong with
/// the first that does not.
pub fn verify_headers(image: &[u8]) -> (result: Result<(), HeaderError>)
    ensures
        result is Ok <==> first_bad(image@, 0) == expected_headers().len(),
        result matches Err(error) ==> {
            let bad = expected_headers()[first_bad(image@, 0)];
            &&& 0 <= first_bad(image@, 0) < expected_headers().len()
            &&& match error {
                HeaderError::Short { offset } => offset == bad.0 && image@.len() < bad.0
                    + bad.1.len(),
                HeaderError::Invalid { offset, expected, actual } => offset == bad.0
                    && expected@ == bad.1 && bad.0 + bad.1.len() <= image@.len() && actual@
                    == image@.subrange(bad.0, bad.0 + bad.1.len()) && actual@ != bad.1,
            }
        },
{
    let mut index: usize = 0;
    while index < 5
        invariant
            index <= 5,
            first_bad(image@, index as int) == first_bad(image@, 0),
        decreases 5 - index,
    {
        let wanted = header(index);
        let start: usize = wanted.offset as usize;
        let end: usize = start + wanted.bytes.len();
        if image.len() < end {
            return Err(HeaderError::Short { offset: wanted.offset });
        }
        let actual = crate::bytes::copy_range(image, start, end);
        if !same_bytes(&actual, &wanted.bytes) {
            return Err(
                HeaderError::Invalid { offset: wanted.offset, expected: wanted.bytes, actual },
            );
        }
        index += 1;
    }
    Ok(())
}

/// An image passes exactly if every header stands where it must.
pub proof fn good_image_has_all_headers(image: Seq<u8>)
    ensures
        first_bad(image, 0) == expected_headers().len() <==> forall|i: int|
            0 <= i < expected_headers().len() ==> has_header(
                image,
                #[trigger] expected_headers()[i],
            ),
{
    first_bad_is_first(image, 0);
    if first_bad(image, 0) < expected_headers().len() {
        assert(!has_header(image, expected_headers()[first_bad(image, 0)]));
    }
}

proof fn first_bad_is_first(image: Seq<u8>, from: int)
    requires
        0 <= from <= expected_headers().len(),
    ensures
        from <= first_bad(image, from) <= expected_headers().len(),
        first_bad(image, from) < expected_headers().len() ==> !has_header(
            image,
            expected_headers()[first_bad(image, from)],
        ),
        forall|i: int|
            from <= i < first_bad(image, from) ==> has_header(
                image,
                #[trigger] expected_headers()[i],
            ),
    decreases expected_headers().len() - from,
{
    if from < expected_headers().len() && has_header(image, expected_headers()[from]) {
        first_bad_is_first(image, from + 1);
    }
}

// ---------------------------------------------------------------------------
// Messages
// ---------------------------------------------------------------------------

/// The hexadecimal digit of `n % 16`.
pub open spec fn hex_digit(n: nat) -> char {
    if n % 16 < 10 {
        (48 + n % 16) as char
    } else {
        (87 + n % 16) as char
    }
}

/// `n` in hexadecimal, without leading zeros.
pub open spec fn hex(n: nat) -> Seq<char>
    decreases n,
{
    if n < 16 {
        seq![hex_digit(n)]
    } else {
        hex(n / 16).push(hex_digit(n))
    }
}

/// Bytes as a list of two hexadecimal digits each.
pub open spec fn hex_list(bytes: Seq<u8>) -> Seq<char> {
    "["@ + text::joined(
        bytes.map_values(|byte: u8| text::padded(hex(byte as nat), 2, '0')),
        ", "@,
    ) + "]"@
}

fn hex_char(n: u8) -> (c: char)
    requires
        n < 16,
    ensures
        c == hex_digit(n as nat),
{
    if n < 10 {
        (48 + n) as char
    } else {
        (87 + n) as char
    }
}

fn hex_text(n: u64) -> (out: String)
    ensures
        out@ == hex(n as nat),
    decreases n,
{
    if n < 16 {
        let mut out = String::new();
        out.push(hex_char(n as u8));
        assert(out@ =~= hex(n as nat));
        out
    } else {
        let mut out = hex_text(n / 16);
        out.push(hex_char((n % 16) as u8));
        out
    }
}

fn hex_list_text(bytes: &Vec<u8>) -> (out: String)
    ensures
        out@ == hex_list(bytes@),
{
    let mut parts: Vec<String> = Vec::new();
    let ghost wanted = bytes@.map_values(|byte: u8| text::padded(hex(byte as nat), 2, '0'));
    let mut i: usize = 0;
    while i < bytes.len()
        invariant
            i <= bytes@.len(),
            wanted == bytes@.map_values(|byte: u8| text::padded(hex(byte as nat), 2, '0')),
            parts@.len() == i,
            forall|j: int| 0 <= j < i ==> (#[trigger] parts@[j])@ == wanted[j],
        decreases bytes@.len() - i,
    {
        let digits = hex_text(bytes[i] as u64);
        parts.push(text::pad(digits.as_str(), 2, '0'));
        i += 1;
    }
    assert(text::texts(parts@) =~= wanted);
    let inner = text::join(parts.as_slice(), ", ");
    let mut out = "[".to_owned();
    out.append(inner.as_str());
    out.append("]");
    out
}

/// What is wrong with an image, in words.
pub open spec fn error_text(error: HeaderError) -> Seq<char> {
    match error {
        HeaderError::Short { offset } => "cannot read header at 0x"@ + hex(offset as nat),
        HeaderError::Invalid { offset, expected, actual } => "invalid header at 0x"@ + hex(
            offset as nat,
        ) + ": expected "@ + hex_list(expected@) + ", got "@ + hex_list(actual@),
    }
}

impl HeaderError {
    pub fn message(&self) -> (message: String)
        ensures
            message@ == error_text(*self),
    {
        match self {
            HeaderError::Short { offset } => {
                let mut out = "cannot read header at 0x".to_owned();
                let digits = hex_text(*offset);
                out.append(digits.as_str());
                out
            },
            HeaderError::Invalid { offset, expected, actual } => {
                let mut out = "invalid header at 0x".to_owned();
                let digits = hex_text(*offset);
                out.append(digits.as_str());
                out.append(": expected ");
                let wanted = hex_list_text(expected);
                out.append(wanted.as_str());
                out.append(", got ");
                let found = hex_list_text(actual);
                out.append(found.as_str());
                out
            },
        }
    }
}

/// The one command that there is.
pub open spec fn is_known_command(command: Seq<char>) -> bool {
    command == "build"@
}

/// What is said of any other.
pub open spec fn refusal_text(command: Seq<char>) -> Seq<char> {
    "unknown command `"@ + command + "`; expected `build`"@
}

/// The image builder knows one command.
pub fn check_command(command: &str) -> (result: Result<(), String>)
    ensures
        result is Ok <==> is_known_command(command@),
        result matches Err(message) ==> message@ == refusal_text(command@),
{
    if text::same_text(command, "build") {
        return Ok(());
    }
    let mut message = "unknown command `".to_owned();
    message.append(command);
    message.append("`; expected `build`");
    Err(message)
}

/// The bytes of a good image: the loader's mark and the flash mode at its start and at the
/// program's, and the mark of the partition table.
pub proof fn good_images_have_their_bytes(image: Seq<u8>)
    ensures
        first_bad(image, 0) == 5 <==> {
            &&& image.len() >= 65_539
            &&& image[0] == 0xe9
            &&& image[2] == 2
            &&& image[32_768] == 0xaa
            &&& image[32_769] == 0x50
            &&& image[65_536] == 0xe9
            &&& image[65_538] == 2
        },
        expected_headers().len() == 5,
{
    good_image_has_all_headers(image);
    let headers = expected_headers();
    assert(headers[0] == (0x0int, seq![0xe9u8]));
    assert(headers[1] == (0x2int, seq![0x02u8]));
    assert(headers[2] == (0x8000int, seq![0xaau8, 0x50u8]));
    assert(headers[3] == (0x10000int, seq![0xe9u8]));
    assert(headers[4] == (0x10002int, seq![0x02u8]));
    if first_bad(image, 0) == 5 {
        assert(has_header(image, headers[0]) && has_header(image, headers[1]) && has_header(
            image,
            headers[2],
        ) && has_header(image, headers[3]) && has_header(image, headers[4]));
        assert(image.subrange(0, 1)[0] == image[0]);
        assert(image.subrange(2, 3)[0] == image[2]);
        assert(image.subrange(0x8000, 0x8002)[0] == image[0x8000]);
        assert(image.subrange(0x8000, 0x8002)[1] == image[0x8001]);
        assert(image.subrange(0x10000, 0x10001)[0] == image[0x10000]);
        assert(image.subrange(0x10002, 0x10003)[0] == image[0x10002]);
    }
    if image.len() >= 65_539 && image[0] == 0xe9 && image[2] == 2 && image[32_768] == 0xaa
        && image[32_769] == 0x50 && image[65_536] == 0xe9 && image[65_538] == 2 {
        assert(image.subrange(0, 1) =~= seq![0xe9u8]);
        assert(image.subrange(2, 3) =~= seq![0x02u8]);
        assert(image.subrange(0x8000, 0x8002) =~= seq![0xaau8, 0x50u8]);
        assert(image.subrange(0x10000, 0x10001) =~= seq![0xe9u8]);
        assert(image.subrange(0x10002, 0x10003) =~= seq![0x02u8]);
        assert forall|i: int| 0 <= i < headers.len() implies has_header(
            image,
            #[trigger] headers[i],
        ) by {
            assert(i == 0 || i == 1 || i == 2 || i == 3 || i == 4);
        }
    }
}

/// A number in hexadecimal: the last digit is that of the remainder by sixteen, and what stands
/// before it is the quotient.
pub proof fn hex_digits_have_their_place(n: nat)
    ensures
        hex(n).len() > 0,
        hex(n).last() == "0123456789abcdef"@[(n % 16) as int],
        n < 16 ==> hex(n).len() == 1,
        n >= 16 ==> hex(n).drop_last() == hex(n / 16),
{
    reveal_strlit("0123456789abcdef");
    if n >= 16 {
        assert(hex(n).drop_last() =~= hex(n / 16));
    }
}

/// What is said of a bad image and of an unknown command.
pub proof fn faults_are_named(
    offset: u64,
    expected: Vec<u8>,
    actual: Vec<u8>,
    first: u8,
    second: u8,
    command: Seq<char>,
)
    ensures
        error_text(HeaderError::Short { offset }) == "cannot read header at 0x"@ + hex(
            offset as nat,
        ),
        error_text(HeaderError::Invalid { offset, expected, actual }) == "invalid header at 0x"@
            + hex(offset as nat) + ": expected "@ + hex_list(expected@) + ", got "@ + hex_list(
            actual@,
        ),
        hex_list(seq![first, second]) == seq!['['] + text::padded(hex(first as nat), 2, '0')
            + seq![',', ' '] + text::padded(hex(second as nat), 2, '0') + seq![']'],
        hex_list(seq![first]) == seq!['['] + text::padded(hex(first as nat), 2, '0') + seq![']'],
        is_known_command(command) <==> command == seq!['b', 'u', 'i', 'l', 'd'],
        refusal_text(command) == "unknown command `"@ + command + "`; expected `build`"@,
{
    reveal_strlit("[");
    reveal_strlit("]");
    reveal_strlit(", ");
    reveal_strlit("build");
    assert("build"@ =~= seq!['b', 'u', 'i', 'l', 'd']);
    reveal_with_fuel(text::joined, 3);
    let both = seq![first, second].map_values(
        |byte: u8| text::padded(hex(byte as nat), 2, '0'),
    );
    assert(both.drop_last() =~= seq![both[0]]);
    assert(hex_list(seq![first, second]) =~= seq!['['] + text::padded(hex(first as nat), 2, '0')
        + seq![',', ' '] + text::padded(hex(second as nat), 2, '0') + seq![']']);
    assert(hex_list(seq![first]) =~= seq!['['] + text::padded(hex(first as nat), 2, '0')
        + seq![']']);
}

} // verus!
