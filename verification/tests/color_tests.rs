use chart_engine::color::{color_at, ColorPallet, IntoColorCode};

#[test]
fn palette_tables_have_sixteen_colors() {
    for p in [
        ColorPallet::Default,
        ColorPallet::Material,
        ColorPallet::DarkBlue,
        ColorPallet::OrangeFire,
    ] {
        assert_eq!(p.colors().len(), 16);
    }
}

#[test]
fn default_palette_table_entries() {
    let colors = ColorPallet::Default.colors();
    assert_eq!(colors[0], 0xf94144);
    assert_eq!(colors[1], 0xf3722c);
    assert_eq!(colors[15], 0xaa5042);
}

#[test]
fn material_palette_table_entries() {
    let colors = ColorPallet::Material.colors();
    assert_eq!(
        colors,
        vec![
            0xf44336, 0xe81e63, 0x9c27b0, 0x673ab7, 0x3f51b5, 0x2196f3, 0x03a9f4, 0x00bcd4,
            0x009688, 0x4caf50, 0x8bc34a, 0xcddc39, 0xffeb3b, 0xffc107, 0xff9800, 0xff5722,
        ]
    );
}

#[test]
fn dark_blue_and_orange_fire_first_entries() {
    assert_eq!(ColorPallet::DarkBlue.colors()[0], 0x001233);
    assert_eq!(ColorPallet::OrangeFire.colors()[0], 0xfc2f00);
}

#[test]
fn color_at_is_cyclic() {
    for p in [
        ColorPallet::Default,
        ColorPallet::Material,
        ColorPallet::DarkBlue,
        ColorPallet::OrangeFire,
    ] {
        for i in 0..20usize {
            assert_eq!(color_at(p, i), color_at(p, i + 16));
        }
    }
}

#[test]
fn color_at_reads_the_table() {
    assert_eq!(color_at(ColorPallet::Material, 5), 0x2196f3);
    assert_eq!(color_at(ColorPallet::Material, 17), 0xe81e63);
    assert_eq!(color_at(ColorPallet::Default, 16), 0xf94144);
}

#[test]
fn color_codes_are_six_hex_digits() {
    assert_eq!(0xf44336u32.into_color_code(), "#f44336");
    assert_eq!(0x001233u32.into_color_code(), "#001233");
    assert_eq!(0x000000u32.into_color_code(), "#000000");
    assert_eq!(0xffffffu32.into_color_code(), "#ffffff");
    assert_eq!(0x03a9f4u32.into_color_code(), "#03a9f4");
}
