use wallet_adapter::assets::{asset_base64_svg, png_base64_uri};
use wallet_adapter::qr::{address_qrcode, push_decimal, qr_to_svg, try_address_qrcode, QrGrid};

fn grid(dark: &[usize]) -> QrGrid {
    let mut modules = vec![false; 21 * 21];
    for &k in dark {
        modules[k] = true;
    }
    QrGrid::from_modules(21, modules).unwrap()
}

#[test]
fn svg_data_uris() {
    assert_eq!(asset_base64_svg("<svg/>"), "data:image/svg+xml;base64,PHN2Zy8+");
    assert_eq!(asset_base64_svg(""), "data:image/svg+xml;base64,");
    assert_eq!(png_base64_uri(b"Hello world"), "data:image/png;base64,SGVsbG8gd29ybGQ=");
}

#[test]
fn decimal_text() {
    let mut s = String::from("n=");
    push_decimal(&mut s, 0);
    push_decimal(&mut s, 1234567890);
    push_decimal(&mut s, u32::MAX);
    assert_eq!(s, "n=012345678904294967295");
}

#[test]
fn grids_must_fit_a_qr_code() {
    assert!(QrGrid::from_modules(20, vec![false; 400]).is_none());
    assert!(QrGrid::from_modules(21, vec![false; 440]).is_none());
    assert!(QrGrid::from_modules(178, vec![false; 178 * 178]).is_none());
    let g = grid(&[45]);
    assert_eq!(g.size(), 21);
    assert!(g.get_module(3, 2));
    assert!(!g.get_module(2, 3));
    assert!(!g.get_module(-1, 0));
    assert!(!g.get_module(21, 0));
}

#[test]
fn svg_of_a_small_grid() {
    assert_eq!(qr_to_svg(&grid(&[0, 45]), 4), "data:image/svg+xml;base64,PD94bWwgdmVyc2lvbj0iMS4wIiBlbmNvZGluZz0iVVRGLTgiPz4KPCFET0NUWVBFIHN2ZyBQVUJMSUMgIi0vL1czQy8vRFREIFNWRyAxLjEvL0VOIiAiaHR0cDovL3d3dy53My5vcmcvR3JhcGhpY3MvU1ZHLzEuMS9EVEQvc3ZnMTEuZHRkIj4KPHN2ZyB4bWxucz0iaHR0cDovL3d3dy53My5vcmcvMjAwMC9zdmciIHZlcnNpb249IjEuMSIgdmlld0JveD0iMCAwIDI5IDI5IiBzdHJva2U9Im5vbmUiPgoJPHJlY3Qgd2lkdGg9IjEwMCUiIGhlaWdodD0iMTAwJSIgZmlsbD0iI0ZGRkZGRiIvPgoJPHBhdGggZD0iTTQsNGgxdjFoLTF6IE03LDZoMXYxaC0xeiIgZmlsbD0iIzAwMDAwMCIvPgo8L3N2Zz4K");
    assert_eq!(qr_to_svg(&grid(&[]), 0), "data:image/svg+xml;base64,PD94bWwgdmVyc2lvbj0iMS4wIiBlbmNvZGluZz0iVVRGLTgiPz4KPCFET0NUWVBFIHN2ZyBQVUJMSUMgIi0vL1czQy8vRFREIFNWRyAxLjEvL0VOIiAiaHR0cDovL3d3dy53My5vcmcvR3JhcGhpY3MvU1ZHLzEuMS9EVEQvc3ZnMTEuZHRkIj4KPHN2ZyB4bWxucz0iaHR0cDovL3d3dy53My5vcmcvMjAwMC9zdmciIHZlcnNpb249IjEuMSIgdmlld0JveD0iMCAwIDIxIDIxIiBzdHJva2U9Im5vbmUiPgoJPHJlY3Qgd2lkdGg9IjEwMCUiIGhlaWdodD0iMTAwJSIgZmlsbD0iI0ZGRkZGRiIvPgoJPHBhdGggZD0iIiBmaWxsPSIjMDAwMDAwIi8+Cjwvc3ZnPgo=");
    assert_eq!(qr_to_svg(&grid(&[45, 440]), 10), "data:image/svg+xml;base64,PD94bWwgdmVyc2lvbj0iMS4wIiBlbmNvZGluZz0iVVRGLTgiPz4KPCFET0NUWVBFIHN2ZyBQVUJMSUMgIi0vL1czQy8vRFREIFNWRyAxLjEvL0VOIiAiaHR0cDovL3d3dy53My5vcmcvR3JhcGhpY3MvU1ZHLzEuMS9EVEQvc3ZnMTEuZHRkIj4KPHN2ZyB4bWxucz0iaHR0cDovL3d3dy53My5vcmcvMjAwMC9zdmciIHZlcnNpb249IjEuMSIgdmlld0JveD0iMCAwIDQxIDQxIiBzdHJva2U9Im5vbmUiPgoJPHJlY3Qgd2lkdGg9IjEwMCUiIGhlaWdodD0iMTAwJSIgZmlsbD0iI0ZGRkZGRiIvPgoJPHBhdGggZD0iIE0xMywxMmgxdjFoLTF6IE0zMCwzMGgxdjFoLTF6IiBmaWxsPSIjMDAwMDAwIi8+Cjwvc3ZnPgo=");
}

#[test]
fn address_qr_codes() {
    let address = "3bF44ZTKPSc4qZV97mpRA85NkQaM9D9Z6i3uYjKbs8E6";
    let code = qrcodegen::QrCode::encode_text(address, qrcodegen::QrCodeEcc::High).unwrap();
    let size = code.size();
    let mut modules = Vec::new();
    for y in 0..size {
        for x in 0..size {
            modules.push(code.get_module(x, y));
        }
    }
    let expected = qr_to_svg(&QrGrid::from_modules(size, modules).unwrap(), 4);
    let uri = address_qrcode(address);
    assert_eq!(uri, expected);
    assert_eq!(try_address_qrcode(address), Some(uri.clone()));
    let svg = data_encoding::BASE64
        .decode(uri.trim_start_matches("data:image/svg+xml;base64,").as_bytes())
        .unwrap();
    let svg = String::from_utf8(svg).unwrap();
    assert!(svg.contains(&format!("viewBox=\"0 0 {0} {0}\"", size + 8)));
    assert!(svg.contains("M4,4h1v1h-1z"));
}

#[test]
fn too_long_for_a_qr_code() {
    let long = "x".repeat(4000);
    assert_eq!(try_address_qrcode(&long), None);
}
