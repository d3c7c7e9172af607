//! Tests of symbol parsing and descriptions.

use vapore::holdings::{all_stock_descriptions, StockSymbol};

#[test]
fn new_recognises_every_supported_ticker() {
    assert_eq!(StockSymbol::new("VXUS"), StockSymbol::VXUS);
    assert_eq!(StockSymbol::new("BNDX"), StockSymbol::BNDX);
    assert_eq!(StockSymbol::new("VTIP"), StockSymbol::VTIP);
    assert_eq!(StockSymbol::new("BND"), StockSymbol::BND);
    assert_eq!(StockSymbol::new("VWO"), StockSymbol::VWO);
    assert_eq!(StockSymbol::new("VO"), StockSymbol::VO);
    assert_eq!(StockSymbol::new("VB"), StockSymbol::VB);
    assert_eq!(StockSymbol::new("VTC"), StockSymbol::VTC);
    assert_eq!(StockSymbol::new("VV"), StockSymbol::VV);
    assert_eq!(StockSymbol::new("VMFXX"), StockSymbol::VMFXX);
    assert_eq!(StockSymbol::new("VTI"), StockSymbol::VTI);
    assert_eq!(StockSymbol::new("VTIVX"), StockSymbol::VTIVX);
}

#[test]
fn new_keeps_unsupported_ticker_as_other() {
    assert_eq!(StockSymbol::new("AAPL"), StockSymbol::Other("AAPL".to_string()));
    assert_eq!(StockSymbol::new(""), StockSymbol::Other("".to_string()));
    assert_eq!(StockSymbol::new("bnd"), StockSymbol::Other("bnd".to_string()));
}

#[test]
fn description_of_supported_symbol() {
    let bnd = StockSymbol::new("BND");
    assert_eq!(bnd.description(), "BND: US total bond");
    assert_eq!(StockSymbol::VV.description(), "VV: US large cap");
    assert_eq!(StockSymbol::VTIVX.description(), "VTIVX: 2045 Retirement fund");
}

#[test]
fn description_of_undescribed_symbols() {
    assert_eq!(StockSymbol::VMFXX.description(), "No description for VMFXX");
    assert_eq!(StockSymbol::Empty.description(), "No description for Empty");
    assert_eq!(
        StockSymbol::Other("AAPL".to_string()).description(),
        "No description for Other(\"AAPL\")"
    );
}

#[test]
fn all_descriptions_one_per_line() {
    let text = all_stock_descriptions();
    let lines: Vec<&str> = text.split('\n').collect();
    assert_eq!(lines.len(), 11);
    assert_eq!(lines[0], "VV: US large cap");
    assert_eq!(lines[4], "BND: US total bond");
    assert_eq!(lines[10], "VTIVX: 2045 Retirement fund");
    assert!(!text.ends_with('\n'));
}

#[test]
fn supported_copy_duplicates_supported_symbols_only() {
    assert_eq!(StockSymbol::VWO.supported_copy(), Some(StockSymbol::VWO));
    assert_eq!(StockSymbol::Empty.supported_copy(), None);
    assert_eq!(StockSymbol::Other("X".to_string()).supported_copy(), None);
}
