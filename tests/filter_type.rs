use fxcore::FilterType;

#[test]
fn codes_select_topologies() {
    let expected = [
        FilterType::LPF1,
        FilterType::HPF1,
        FilterType::LPF2,
        FilterType::HPF2,
        FilterType::BPF2,
        FilterType::NOTCH2,
        FilterType::PEAK2,
        FilterType::LoShelf,
        FilterType::HiShelf,
    ];
    for (code, t) in expected.iter().enumerate() {
        assert_eq!(FilterType::from_u32(code as u32), *t);
        assert_eq!(t.to_u32(), code as u32);
    }
}

#[test]
fn unknown_code_falls_back_to_lpf1() {
    assert_eq!(FilterType::from_u32(9), FilterType::LPF1);
    assert_eq!(FilterType::from_u32(u32::MAX), FilterType::LPF1);
    assert_eq!(FilterType::from_u32(9).to_u32(), 0);
}

#[test]
fn one_pole_forms_have_order_one() {
    assert_eq!(FilterType::LPF1.order(), 1);
    assert_eq!(FilterType::HPF1.order(), 1);
    assert_eq!(FilterType::LPF2.order(), 2);
    assert_eq!(FilterType::NOTCH2.order(), 2);
    assert_eq!(FilterType::HiShelf.order(), 2);
}
