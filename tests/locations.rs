use compiler_calc::{
    AddrMode, AddrString, AreaData, CalcDirection, CompilerCalc, GenericAddressString, LocData,
};

fn hex(s: &str) -> AddrString {
    AddrString::new(s.to_string(), AddrMode::Hex)
}

fn dec(s: &str) -> AddrString {
    AddrString::new(s.to_string(), AddrMode::Dec)
}

fn loc(start: AddrString, offset: AddrString, memory: AddrString, direction: CalcDirection) -> LocData {
    LocData { comment: String::new(), start_addr: start, offset_addr: offset, memory_addr: memory, direction }
}

fn area(base: &str, locations: Vec<LocData>) -> AreaData {
    AreaData { base_addr: hex(base), locations }
}

#[test]
fn start_to_memory_with_empty_offset() {
    let mut a = area("0x1000", vec![loc(dec("256"), hex(""), hex("0x0"), CalcDirection::StartAddressToMemory)]);
    a.update_data();
    assert_eq!(a.locations[0].memory_addr.buffer().as_str(), "0x1100");
    assert_eq!(a.locations[0].start_addr.buffer().as_str(), "256");
}

#[test]
fn memory_to_start_with_offset() {
    let mut a = area("0x1000", vec![loc(hex("0x0"), hex("0x10"), hex("0x1100"), CalcDirection::MemoryToStartAddress)]);
    a.update_data();
    assert_eq!(a.locations[0].start_addr.buffer().as_str(), "0xF0");
    assert_eq!(a.locations[0].memory_addr.buffer().as_str(), "0x1100");
}

#[test]
fn overflow_leaves_memory() {
    let mut a = area(
        "0xFFFFFFFFFFFFFFFF",
        vec![loc(dec("1"), dec("0"), hex("0x5"), CalcDirection::StartAddressToMemory)],
    );
    a.update_data();
    assert_eq!(a.locations[0].memory_addr.buffer().as_str(), "0x5");
    let mut l = loc(hex("0xFFFFFFFFFFFFFFFF"), hex("0x1"), dec("7"), CalcDirection::StartAddressToMemory);
    l.update_data(0);
    assert_eq!(l.memory_addr.buffer().as_str(), "7");
}

#[test]
fn underflow_leaves_start() {
    let mut l = loc(dec("9"), hex("0x10"), hex("0x1005"), CalcDirection::MemoryToStartAddress);
    l.update_data(0x1000);
    assert_eq!(l.start_addr.buffer().as_str(), "9");
    let mut m = loc(dec("9"), hex("0x1"), hex("0xFFFFFFFFFFFFFFFF"), CalcDirection::MemoryToStartAddress);
    m.update_data(u64::MAX);
    assert_eq!(m.start_addr.buffer().as_str(), "9");
    let mut z = loc(dec("9"), hex("0x0"), hex("0x1000"), CalcDirection::MemoryToStartAddress);
    z.update_data(0x1000);
    assert_eq!(z.start_addr.buffer().as_str(), "0");
}

#[test]
fn direction_round_trip() {
    for (base, start, offset) in [(0x1000u64, 0x234u64, 0x10u64), (0, 0, 0), (u64::MAX - 5, 2, 3), (7, 11, 13)] {
        let mut l = loc(hex(""), dec(""), hex("0x0"), CalcDirection::StartAddressToMemory);
        l.start_addr.update_data(start);
        l.offset_addr.update_data(offset);
        l.update_data(base);
        assert_eq!(l.memory_addr.get_addr(), Some(base + start + offset));
        l.toggle_direction();
        *l.start_addr.buffer() = String::from("garbage");
        l.update_data(base);
        assert_eq!(l.start_addr.get_addr(), Some(start));
        assert_eq!(l.start_addr.mode(), AddrMode::Hex);
    }
}

#[test]
fn unreadable_offset_counts_as_zero() {
    let mut l = loc(hex("0x20"), dec("zz"), dec("0"), CalcDirection::StartAddressToMemory);
    l.update_data(0x100);
    assert_eq!(l.memory_addr.buffer().as_str(), "288");
    let mut m = loc(hex("0x0"), hex(""), hex("0x120"), CalcDirection::MemoryToStartAddress);
    m.update_data(0x100);
    assert_eq!(m.start_addr.buffer().as_str(), "0x20");
}

#[test]
fn unreadable_primary_aborts() {
    let mut l = loc(hex("0xq"), hex("0x1"), hex("0x77"), CalcDirection::StartAddressToMemory);
    l.update_data(0x100);
    assert_eq!(l.memory_addr.buffer().as_str(), "0x77");
    let mut m = loc(dec("5"), hex("0x1"), dec(""), CalcDirection::MemoryToStartAddress);
    m.update_data(0x100);
    assert_eq!(m.start_addr.buffer().as_str(), "5");
}

#[test]
fn explicit_update_functions() {
    let mut l = loc(dec("1"), dec("2"), dec("0"), CalcDirection::MemoryToStartAddress);
    l.update_memory_data(3);
    assert_eq!(l.memory_addr.buffer().as_str(), "6");
    l.update_function_data(1);
    assert_eq!(l.start_addr.buffer().as_str(), "3");
}

#[test]
fn direction_toggle_and_text() {
    let mut l = LocData::default();
    assert_eq!(l.direction, CalcDirection::StartAddressToMemory);
    assert_eq!(l.direction_text(), "->");
    l.toggle_direction();
    assert_eq!(l.direction, CalcDirection::MemoryToStartAddress);
    assert_eq!(l.direction_text(), "<-");
    assert_eq!(l.memory_addr.buffer().as_str(), "0x0");
    l.toggle_direction();
    assert_eq!(l.direction_text(), "->");
    assert_eq!(CalcDirection::default(), CalcDirection::StartAddressToMemory);
}

#[test]
fn area_with_unreadable_base_is_untouched() {
    let mut a = area("0xzz", vec![loc(dec("1"), hex(""), hex("0x9"), CalcDirection::StartAddressToMemory)]);
    a.update_data();
    assert_eq!(a.locations[0].memory_addr.buffer().as_str(), "0x9");
    assert_eq!(a.base_addr.buffer().as_str(), "0xzz");
}

#[test]
fn area_recomputes_every_location() {
    let mut a = AreaData::default();
    assert_eq!(a.locations.len(), 4);
    *a.base_addr.buffer() = String::from("0x400000");
    *a.locations[0].start_addr.buffer() = String::from("16");
    *a.locations[1].memory_addr.buffer() = String::from("4194320");
    a.update_data();
    assert_eq!(a.locations[0].memory_addr.buffer().as_str(), "0x400010");
    assert_eq!(a.locations[1].start_addr.buffer().as_str(), "16");
    assert_eq!(a.locations[2].memory_addr.buffer().as_str(), "0x400000");
    // memory 0 is below the base: the start stays
    assert_eq!(a.locations[3].start_addr.buffer().as_str(), "0");
    assert_eq!(a.locations[3].direction, CalcDirection::MemoryToStartAddress);
}

#[test]
fn area_locations_append_and_remove() {
    let mut a = area("0x0", Vec::new());
    a.remove_last_location();
    assert_eq!(a.locations.len(), 0);
    a.append_default_location();
    a.append_default_location();
    assert_eq!(a.locations.len(), 2);
    a.locations[0].comment = String::from("first");
    a.remove_last_location();
    assert_eq!(a.locations.len(), 1);
    assert_eq!(a.locations[0].comment, "first");
}

#[test]
fn calculator_defaults() {
    let c = CompilerCalc::default();
    assert_eq!(c.area_data.len(), 5);
    assert_eq!(c.current_area_tab, 0);
    assert!(!c.info_loading_window_show);
    assert!(c.info_data.is_empty());
}

#[test]
fn calculator_clamps_selection() {
    let mut c = CompilerCalc::default();
    c.select_area(4);
    assert_eq!(c.current_area_tab, 4);
    c.select_area(9);
    assert_eq!(c.current_area_tab, 4);
    c.remove_last_area();
    assert_eq!(c.area_data.len(), 4);
    assert_eq!(c.current_area_tab, 3);
    c.select_area(1);
    c.remove_last_area();
    assert_eq!(c.current_area_tab, 1);
    for _ in 0..5 {
        c.remove_last_area();
    }
    assert_eq!(c.area_data.len(), 0);
    assert_eq!(c.current_area_tab, 0);
    c.update_current_area();
    c.add_area();
    assert_eq!(c.area_data.len(), 1);
    assert_eq!(c.current_area_tab, 0);
}

#[test]
fn calculator_updates_selected_area_only() {
    let mut c = CompilerCalc::default();
    for a in c.area_data.iter_mut() {
        *a.base_addr.buffer() = String::from("0x100");
    }
    c.select_area(2);
    c.update_current_area();
    assert_eq!(c.area_data[2].locations[0].memory_addr.buffer().as_str(), "0x100");
    assert_eq!(c.area_data[0].locations[0].memory_addr.buffer().as_str(), "0x0");
}
