use qrcodegen::{QrCode, QrCodeEcc};
use vstd::prelude::*;
use vstd::string::*;
use vstd::utf8::encode_utf8;

use crate::assets::{base64_encode, base64_input_limit, lemma_utf8_len_bound, spec_svg_data_uri};

verus! {

/// The decimal digit for `d < 10`.
pub open spec fn digit_char(d: nat) -> char {
    (d + 48) as char
}

/// The decimal notation of `n`, without leading zeros.
pub open spec fn spec_decimal(n: nat) -> Seq<char>
    decreases n,
{
    if n < 10 {
        seq![digit_char(n)]
    } else {
        spec_decimal(n / 10) + seq![digit_char(n % 10)]
    }
}

fn digit_text(d: u32) -> (res: &'static str)
    requires
        d < 10,
    ensures
        res@ == seq![digit_char(d as nat)],
{
    proof {
        reveal_strlit("0");
        reveal_strlit("1");
        reveal_strlit("2");
        reveal_strlit("3");
        reveal_strlit("4");
        reveal_strlit("5");
        reveal_strlit("6");
        reveal_strlit("7");
        reveal_strlit("8");
        reveal_strlit("9");
    }
    let res = match d {
        0 => "0",
        1 => "1",
        2 => "2",
        3 => "3",
        4 => "4",
        5 => "5",
        6 => "6",
        7 => "7",
        8 => "8",
        _ => "9",
    };
    assert(res@ =~= seq![digit_char(d as nat)]);
    res
}

/// Appends the decimal notation of `n` to `s`.
pub fn push_decimal(s: &mut String, n: u32)
    ensures
        final(s)@ == old(s)@ + spec_decimal(n as nat),
    decreases n,
{
    if n >= 10 {
        push_decimal(s, n / 10);
    }
    s.append(digit_text(n % 10));
    assert(final(s)@ =~= old(s)@ + spec_decimal(n as nat));
}

/// A number below ten to the power `k` has at most `k` digits.
pub proof fn lemma_decimal_len(n: nat, k: nat, bound: nat)
    requires
        k >= 1,
        n < bound,
        bound == pow10(k),
    ensures
        spec_decimal(n).len() <= k,
    decreases k,
{
    if n >= 10 {
        assert(k > 1) by {
            if k == 1 {
                reveal_with_fuel(pow10, 2);
            }
        };
        assert(pow10((k - 1) as nat) * 10 == bound);
        assert(n / 10 < pow10((k - 1) as nat));
        lemma_decimal_len(n / 10, (k - 1) as nat, pow10((k - 1) as nat));
    }
}

/// Ten to the power `k`.
pub open spec fn pow10(k: nat) -> nat
    decreases k,
{
    if k == 0 {
        1
    } else {
        10 * pow10((k - 1) as nat)
    }
}

/// The dark and light modules of a QR code, row by row: `modules[y * size + x]` is the
/// module in column `x` and row `y`; `true` is dark.
#[derive(Debug, PartialEq, Eq)]
pub struct QrGrid {
    size: i32,
    modules: Vec<bool>,
}

/// Names the QR code `qrcodegen::QrCode::encode_text` builds for `text` at the high
/// error-correction level, as its side length and its modules row by row, or `None`
/// when the text does not fit in any version.
pub uninterp spec fn qr_code_high(text: Seq<char>) -> Option<(i32, Seq<bool>)>;

/// A grid of the sizes QR codes have, with one module per cell.
pub open spec fn grid_ok(size: i32, modules: Seq<bool>) -> bool {
    21 <= size <= 177 && modules.len() == size * size
}

/// Calls `qrcodegen::QrCode::encode_text(text, QrCodeEcc::High)` and reads the code's
/// modules row by row with `get_module`. Claimed: the result is the one named by
/// `qr_code_high`, and a code's side is between 21 and 177, as the crate documents.
#[verifier::external_body]
fn encode_text_high(text: &str) -> (res: Option<QrGrid>)
    ensures
        match res {
            Some(g) => qr_code_high(text@) == Some((g.size, g.modules@)) && grid_ok(g.size, g.modules@),
            None => qr_code_high(text@) is None,
        },
{
    let qr = QrCode::encode_text(text, QrCodeEcc::High).ok()?;
    let size = qr.size();
    let modules = (0..size).flat_map(|y| (0..size).map(move |x| (x, y))).map(|(x, y)| qr.get_module(x, y)).collect();
    Some(QrGrid { size, modules })
}

/// The path step for the module at `k`, counting row by row: nothing for a light module;
/// for a dark one a unit square at its position shifted by `border`, after a space unless
/// it is the very first module.
pub open spec fn module_step(size: int, modules: Seq<bool>, border: int, k: int) -> Seq<char> {
    if modules[k] {
        (if k != 0 { " "@ } else { ""@ }) + "M"@ + spec_decimal((k % size + border) as nat) + ","@
            + spec_decimal((k / size + border) as nat) + "h1v1h-1z"@
    } else {
        Seq::empty()
    }
}

/// The path data for the first `n` modules.
pub open spec fn modules_path_data(size: int, modules: Seq<bool>, border: int, n: int) -> Seq<char>
    decreases n,
{
    if n <= 0 {
        Seq::empty()
    } else {
        modules_path_data(size, modules, border, n - 1) + module_step(size, modules, border, n - 1)
    }
}

/// The text that opens the SVG document, up to the side length.
pub open spec fn svg_head() -> Seq<char> {
    "<?xml version=\"1.0\" encoding=\"UTF-8\"?>\n"@
        + "<!DOCTYPE svg PUBLIC \"-//W3C//DTD SVG 1.1//EN\" \"http://www.w3.org/Graphics/SVG/1.1/DTD/svg11.dtd\">\n"@
        + "<svg xmlns=\"http://www.w3.org/2000/svg\" version=\"1.1\" viewBox=\"0 0 "@
}

/// The SVG document of a QR code drawn with a light border of `border` modules.
pub open spec fn spec_qr_svg(size: int, modules: Seq<bool>, border: int) -> Seq<char> {
    let dimension = spec_decimal((size + 2 * border) as nat);
    svg_head() + dimension + " "@ + dimension + "\" stroke=\"none\">\n"@
        + "\t<rect width=\"100%\" height=\"100%\" fill=\"#FFFFFF\"/>\n"@ + "\t<path d=\""@
        + modules_path_data(size, modules, border, size * size) + "\" fill=\"#000000\"/>\n"@ + "</svg>\n"@
}

/// A module step is at most 31 characters long.
proof fn lemma_step_len(size: int, modules: Seq<bool>, border: int, k: int)
    requires
        21 <= size <= 177,
        0 <= k < size * size,
        0 <= border,
        size + 2 * border <= i32::MAX,
    ensures
        module_step(size, modules, border, k).len() <= 31,
{
    reveal_strlit(" ");
    reveal_strlit("");
    reveal_strlit("M");
    reveal_strlit(",");
    reveal_strlit("h1v1h-1z");
    assert(0 <= k % size < size && 0 <= k / size < size) by (nonlinear_arith)
        requires
            21 <= size,
            0 <= k < size * size,
    ;
    assert(pow10(10) == 10000000000) by {
        reveal_with_fuel(pow10, 11);
    }
    lemma_decimal_len((k % size + border) as nat, 10, pow10(10));
    lemma_decimal_len((k / size + border) as nat, 10, pow10(10));
}

/// The path for `n` modules is at most `31 * n` characters long.
proof fn lemma_path_len(size: int, modules: Seq<bool>, border: int, n: int)
    requires
        21 <= size <= 177,
        0 <= n <= size * size,
        0 <= border,
        size + 2 * border <= i32::MAX,
    ensures
        modules_path_data(size, modules, border, n).len() <= 31 * n,
    decreases n,
{
    if n > 0 {
        lemma_path_len(size, modules, border, n - 1);
        lemma_step_len(size, modules, border, n - 1);
    }
}

impl QrGrid {
    /// The side length, in modules.
    pub closed spec fn spec_size(&self) -> i32 {
        self.size
    }

    /// The modules, row by row.
    pub closed spec fn spec_modules(&self) -> Seq<bool> {
        self.modules@
    }

    /// The grid is one a QR code can have.
    pub open spec fn wf(&self) -> bool {
        grid_ok(self.spec_size(), self.spec_modules())
    }

    /// A grid from its side length and its modules row by row, when they fit a QR code.
    pub fn from_modules(size: i32, modules: Vec<bool>) -> (res: Option<QrGrid>)
        ensures
            grid_ok(size, modules@) <==> res is Some,
            res matches Some(g) ==> g.spec_size() == size && g.spec_modules() == modules@,
    {
        if 21 <= size && size <= 177 {
            assert(size * size <= 177 * 177) by (nonlinear_arith)
                requires
                    21 <= size <= 177,
            ;
            if modules.len() == (size * size) as usize {
                return Some(QrGrid { size, modules });
            }
        }
        None
    }

    /// The side length, in modules.
    pub fn size(&self) -> (res: i32)
        ensures
            res == self.spec_size(),
    {
        self.size
    }

    /// Whether the module at column `x`, row `y` is dark; outside the grid, light.
    pub fn get_module(&self, x: i32, y: i32) -> (res: bool)
        requires
            self.wf(),
        ensures
            res == (0 <= x < self.spec_size() && 0 <= y < self.spec_size()
                && self.spec_modules()[y * self.spec_size() + x]),
    {
        if 0 <= x && x < self.size && 0 <= y && y < self.size {
            assert(0 <= y * self.size + x < self.size * self.size <= 177 * 177) by (nonlinear_arith)
                requires
                    0 <= x < self.size,
                    0 <= y < self.size,
                    self.size <= 177,
            ;
            self.modules[(y * self.size + x) as usize]
        } else {
            false
        }
    }
}

/// Draws a QR code as an SVG document with a light border of `border` modules, and
/// hands it back as a base64 data URI.
pub fn qr_to_svg(qr: &QrGrid, border: i32) -> (res: String)
    requires
        qr.wf(),
        0 <= border,
        qr.spec_size() + 2 * border <= i32::MAX,
    ensures
        res@ == spec_svg_data_uri(spec_qr_svg(qr.spec_size() as int, qr.spec_modules(), border as int)),
{
    let size = qr.size;
    let dimension = size + border * 2;
    let mut result = String::from_str("<?xml version=\"1.0\" encoding=\"UTF-8\"?>\n");
    result.append("<!DOCTYPE svg PUBLIC \"-//W3C//DTD SVG 1.1//EN\" \"http://www.w3.org/Graphics/SVG/1.1/DTD/svg11.dtd\">\n");
    result.append("<svg xmlns=\"http://www.w3.org/2000/svg\" version=\"1.1\" viewBox=\"0 0 ");
    push_decimal(&mut result, dimension as u32);
    result.append(" ");
    push_decimal(&mut result, dimension as u32);
    result.append("\" stroke=\"none\">\n");
    result.append("\t<rect width=\"100%\" height=\"100%\" fill=\"#FFFFFF\"/>\n");
    result.append("\t<path d=\"");
    let ghost prefix = result@;
    assert(size * size <= 177 * 177) by (nonlinear_arith)
        requires
            21 <= size <= 177,
    ;
    let total = size * size;
    let mut k: i32 = 0;
    while k < total
        invariant
            21 <= size <= 177,
            size == qr.spec_size(),
            qr.wf(),
            0 <= border,
            size + 2 * border <= i32::MAX,
            total == size * size,
            0 <= k <= total,
            result@ == prefix + modules_path_data(size as int, qr.spec_modules(), border as int, k as int),
        decreases total - k,
    {
        let x = k % size;
        let y = k / size;
        assert(0 <= x < size && 0 <= y < size && y * size + x == k && ((k == 0) == (x == 0 && y == 0))) by (nonlinear_arith)
            requires
                21 <= size,
                0 <= k < size * size,
                x == k % size,
                y == k / size,
        ;
        let ghost before = result@;
        if qr.modules[k as usize] {
            if x != 0 || y != 0 {
                result.append(" ");
            }
            result.append("M");
            push_decimal(&mut result, (x + border) as u32);
            result.append(",");
            push_decimal(&mut result, (y + border) as u32);
            result.append("h1v1h-1z");
            proof {
                reveal_strlit("");
                assert((k != 0) == (x != 0 || y != 0));
            }
        }
        assert(result@ =~= before + module_step(size as int, qr.spec_modules(), border as int, k as int));
        k = k + 1;
    }
    result.append("\" fill=\"#000000\"/>\n");
    result.append("</svg>\n");
    assert(result@ =~= spec_qr_svg(size as int, qr.spec_modules(), border as int));
    proof {
        lemma_path_len(size as int, qr.spec_modules(), border as int, total as int);
        lemma_utf8_len_bound(result@);
        assert(pow10(10) == 10000000000) by {
        reveal_with_fuel(pow10, 11);
    }
        lemma_decimal_len(dimension as nat, 10, pow10(10));
        reveal_strlit("<?xml version=\"1.0\" encoding=\"UTF-8\"?>\n");
        reveal_strlit("<!DOCTYPE svg PUBLIC \"-//W3C//DTD SVG 1.1//EN\" \"http://www.w3.org/Graphics/SVG/1.1/DTD/svg11.dtd\">\n");
        reveal_strlit("<svg xmlns=\"http://www.w3.org/2000/svg\" version=\"1.1\" viewBox=\"0 0 ");
        reveal_strlit(" ");
        reveal_strlit("\" stroke=\"none\">\n");
        reveal_strlit("\t<rect width=\"100%\" height=\"100%\" fill=\"#FFFFFF\"/>\n");
        reveal_strlit("\t<path d=\"");
        reveal_strlit("\" fill=\"#000000\"/>\n");
        reveal_strlit("</svg>\n");
        assert(31 * total <= 31 * 177 * 177);
    }
    let mut uri = String::from_str("data:image/svg+xml;base64,");
    let encoded = base64_encode(result.as_str().as_bytes());
    uri.append(encoded.as_str());
    uri
}

/// The QR code of an address, drawn with a border of four modules, as a base64 SVG
/// data URI. The address must fit in a QR code at the high error-correction level.
pub fn address_qrcode(address: &str) -> (res: String)
    requires
        qr_code_high(address@) is Some,
    ensures
        res@ == spec_svg_data_uri(spec_qr_svg(
            qr_code_high(address@).unwrap().0 as int,
            qr_code_high(address@).unwrap().1,
            4,
        )),
{
    let qr = encode_text_high(address).unwrap();
    qr_to_svg(&qr, 4)
}

/// The QR code of an address as `address_qrcode` draws it, or `None` when the address
/// does not fit in a QR code at the high error-correction level.
pub fn try_address_qrcode(address: &str) -> (res: Option<String>)
    ensures
        match qr_code_high(address@) {
            Some(code) => res matches Some(uri) && uri@ == spec_svg_data_uri(spec_qr_svg(code.0 as int, code.1, 4)),
            None => res is None,
        },
{
    match encode_text_high(address) {
        Some(_) => Some(address_qrcode(address)),
        None => None,
    }
}

} // verus!
