//! Decimal rendering and identity-map records.

use homesec::fmt::u32_to_dec;
use homesec::namespaces::id_map_record_string;

#[test]
fn decimal_rendering_exact() {
    assert_eq!(u32_to_dec(0).as_str(), "0");
    assert_eq!(u32_to_dec(7).as_str(), "7");
    assert_eq!(u32_to_dec(10).as_str(), "10");
    assert_eq!(u32_to_dec(1000).as_str(), "1000");
    assert_eq!(u32_to_dec(4294967295).as_str(), "4294967295");
}

#[test]
fn id_map_record_is_one_mapping_line() {
    let r = id_map_record_string(0, 1000);
    assert_eq!(r.as_str(), "0 1000 1\n");
    assert_eq!(r.matches('\n').count(), 1);

    let r = id_map_record_string(1000, 1000);
    assert_eq!(r.as_str(), "1000 1000 1\n");
}
