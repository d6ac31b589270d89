use vstd::prelude::*;

verus! {

/// The built-in palettes. Each maps to a fixed, ordered table of 16 packed
/// RGB colors; chart items take their color from the table cyclically by
/// item index.
#[derive(Clone, Copy, Debug, PartialEq, Eq, Structural)]
pub enum ColorPallet {
    Default,
    OrangeFire,
    DarkBlue,
    Material,
}

/// The ordered 16-entry color table of palette `p`.
pub open spec fn spec_colors(p: ColorPallet) -> Seq<u32> {
    match p {
        ColorPallet::Default => seq![0xf94144u32, 0xf3722cu32, 0xf8961eu32, 0xf9844au32, 0xf9c74fu32, 0x90be6du32, 0x43aa8bu32, 0x4d908eu32, 0x577590u32, 0x277da1u32, 0x2d3057u32, 0x2b2d42u32, 0x333a56u32, 0x4e6e58u32, 0xbcbd8bu32, 0xaa5042u32],
        ColorPallet::Material => seq![0xf44336u32, 0xe81e63u32, 0x9c27b0u32, 0x673ab7u32, 0x3f51b5u32, 0x2196f3u32, 0x03a9f4u32, 0x00bcd4u32, 0x009688u32, 0x4caf50u32, 0x8bc34au32, 0xcddc39u32, 0xffeb3bu32, 0xffc107u32, 0xff9800u32, 0xff5722u32],
        ColorPallet::DarkBlue => seq![0x001233u32, 0x001845u32, 0x012a4au32, 0x013a63u32, 0x01497cu32, 0x014f86u32, 0x2a6f97u32, 0x2c7da0u32, 0x468fafu32, 0x61a5c2u32, 0x89c2d9u32, 0xa9d6e5u32, 0x90e0efu32, 0xade8f4u32, 0xcaf0f8u32, 0x0466c8u32],
        ColorPallet::OrangeFire => seq![0xfc2f00u32, 0xff4800u32, 0xff5400u32, 0xff6000u32, 0xff6d00u32, 0xff7900u32, 0xff7b00u32, 0xff8800u32, 0xff9500u32, 0xffa200u32, 0xffaa00u32, 0xffb700u32, 0xffc300u32, 0xffd000u32, 0xffdd00u32, 0xffea00u32],
    }
}

/// The color assigned to item `i`: entry `i mod 16` of the palette's table.
pub open spec fn spec_color_at(p: ColorPallet, i: int) -> u32 {
    spec_colors(p)[i % 16]
}

impl ColorPallet {
    /// The palette's fixed table of 16 packed RGB colors, in order.
    pub fn colors(&self) -> (r: Vec<u32>)
        ensures
            r@ == spec_colors(*self),
            r@.len() == 16,
    {
        let mut v: Vec<u32> = Vec::new();
        match self {
            ColorPallet::Default => {
                v.push(0xf94144);
                v.push(0xf3722c);
                v.push(0xf8961e);
                v.push(0xf9844a);
                v.push(0xf9c74f);
                v.push(0x90be6d);
                v.push(0x43aa8b);
                v.push(0x4d908e);
                v.push(0x577590);
                v.push(0x277da1);
                v.push(0x2d3057);
                v.push(0x2b2d42);
                v.push(0x333a56);
                v.push(0x4e6e58);
                v.push(0xbcbd8b);
                v.push(0xaa5042);
            }
            ColorPallet::Material => {
                v.push(0xf44336);
                v.push(0xe81e63);
                v.push(0x9c27b0);
                v.push(0x673ab7);
                v.push(0x3f51b5);
                v.push(0x2196f3);
                v.push(0x03a9f4);
                v.push(0x00bcd4);
                v.push(0x009688);
                v.push(0x4caf50);
                v.push(0x8bc34a);
                v.push(0xcddc39);
                v.push(0xffeb3b);
                v.push(0xffc107);
                v.push(0xff9800);
                v.push(0xff5722);
            }
            ColorPallet::DarkBlue => {
                v.push(0x001233);
                v.push(0x001845);
                v.push(0x012a4a);
                v.push(0x013a63);
                v.push(0x01497c);
                v.push(0x014f86);
                v.push(0x2a6f97);
                v.push(0x2c7da0);
                v.push(0x468faf);
                v.push(0x61a5c2);
                v.push(0x89c2d9);
                v.push(0xa9d6e5);
                v.push(0x90e0ef);
                v.push(0xade8f4);
                v.push(0xcaf0f8);
                v.push(0x0466c8);
            }
            ColorPallet::OrangeFire => {
                v.push(0xfc2f00);
                v.push(0xff4800);
                v.push(0xff5400);
                v.push(0xff6000);
                v.push(0xff6d00);
                v.push(0xff7900);
                v.push(0xff7b00);
                v.push(0xff8800);
                v.push(0xff9500);
                v.push(0xffa200);
                v.push(0xffaa00);
                v.push(0xffb700);
                v.push(0xffc300);
                v.push(0xffd000);
                v.push(0xffdd00);
                v.push(0xffea00);
            }
        }
        proof {
            assert(v@ =~= spec_colors(*self));
        }
        v
    }
}

/// The color of item `index`, assigned cyclically from palette `pallet`:
/// total over all indices, with no failure mode.
pub fn color_at(pallet: ColorPallet, index: usize) -> (r: u32)
    ensures
        r == spec_color_at(pallet, index as int),
{
    let colors = pallet.colors();
    colors[index % 16]
}

/// Cyclic palette assignment: moving an index one full table length ahead
/// yields the same color.
pub proof fn lemma_color_cycle(p: ColorPallet, i: int)
    requires
        i >= 0,
    ensures
        spec_color_at(p, i + 16) == spec_color_at(p, i),
{
    assert((i + 16) % 16 == i % 16) by {
        vstd::arithmetic::div_mod::lemma_mod_add_multiples_vanish(i, 16);
    };
}

/// The lowercase hexadecimal digit for `d` (defined for 0 <= d < 16).
pub open spec fn spec_hex_char(d: int) -> char {
    if d == 0 {
        '0'
    } else 
    if d == 1 {
        '1'
    } else 
    if d == 2 {
        '2'
    } else 
    if d == 3 {
        '3'
    } else 
    if d == 4 {
        '4'
    } else 
    if d == 5 {
        '5'
    } else 
    if d == 6 {
        '6'
    } else 
    if d == 7 {
        '7'
    } else 
    if d == 8 {
        '8'
    } else 
    if d == 9 {
        '9'
    } else 
    if d == 10 {
        'a'
    } else 
    if d == 11 {
        'b'
    } else 
    if d == 12 {
        'c'
    } else 
    if d == 13 {
        'd'
    } else 
    if d == 14 {
        'e'
    } else 
    {
        'f'
    }
}

/// The display rendering of the packed RGB value `v`: a '#' followed by six
/// lowercase hexadecimal digits, most significant first.
pub open spec fn color_code_chars(v: u32) -> Seq<char> {
    seq![
        '#',
        spec_hex_char(v as int / 0x100000 % 16),
        spec_hex_char(v as int / 0x10000 % 16),
        spec_hex_char(v as int / 0x1000 % 16),
        spec_hex_char(v as int / 0x100 % 16),
        spec_hex_char(v as int / 0x10 % 16),
        spec_hex_char(v as int % 16),
    ]
}

/// The one-character string holding the hexadecimal digit for `d`.
fn hex_digit_str(d: u32) -> (r: String)
    requires
        d < 16,
    ensures
        r@ == seq![spec_hex_char(d as int)],
{
        if d == 0 {
            proof {
                reveal_strlit("0");
            }
            let r = "0".to_owned();
            assert(r@ =~= seq![spec_hex_char(d as int)]);
            r
        }
        else if d == 1 {
            proof {
                reveal_strlit("1");
            }
            let r = "1".to_owned();
            assert(r@ =~= seq![spec_hex_char(d as int)]);
            r
        }
        else if d == 2 {
            proof {
                reveal_strlit("2");
            }
            let r = "2".to_owned();
            assert(r@ =~= seq![spec_hex_char(d as int)]);
            r
        }
        else if d == 3 {
            proof {
                reveal_strlit("3");
            }
            let r = "3".to_owned();
            assert(r@ =~= seq![spec_hex_char(d as int)]);
            r
        }
        else if d == 4 {
            proof {
                reveal_strlit("4");
            }
            let r = "4".to_owned();
            assert(r@ =~= seq![spec_hex_char(d as int)]);
            r
        }
        else if d == 5 {
            proof {
                reveal_strlit("5");
            }
            let r = "5".to_owned();
            assert(r@ =~= seq![spec_hex_char(d as int)]);
            r
        }
        else if d == 6 {
            proof {
                reveal_strlit("6");
            }
            let r = "6".to_owned();
            assert(r@ =~= seq![spec_hex_char(d as int)]);
            r
        }
        else if d == 7 {
            proof {
                reveal_strlit("7");
            }
            let r = "7".to_owned();
            assert(r@ =~= seq![spec_hex_char(d as int)]);
            r
        }
        else if d == 8 {
            proof {
                reveal_strlit("8");
            }
            let r = "8".to_owned();
            assert(r@ =~= seq![spec_hex_char(d as int)]);
            r
        }
        else if d == 9 {
            proof {
                reveal_strlit("9");
            }
            let r = "9".to_owned();
            assert(r@ =~= seq![spec_hex_char(d as int)]);
            r
        }
        else if d == 10 {
            proof {
                reveal_strlit("a");
            }
            let r = "a".to_owned();
            assert(r@ =~= seq![spec_hex_char(d as int)]);
            r
        }
        else if d == 11 {
            proof {
                reveal_strlit("b");
            }
            let r = "b".to_owned();
            assert(r@ =~= seq![spec_hex_char(d as int)]);
            r
        }
        else if d == 12 {
            proof {
                reveal_strlit("c");
            }
            let r = "c".to_owned();
            assert(r@ =~= seq![spec_hex_char(d as int)]);
            r
        }
        else if d == 13 {
            proof {
                reveal_strlit("d");
            }
            let r = "d".to_owned();
            assert(r@ =~= seq![spec_hex_char(d as int)]);
            r
        }
        else if d == 14 {
            proof {
                reveal_strlit("e");
            }
            let r = "e".to_owned();
            assert(r@ =~= seq![spec_hex_char(d as int)]);
            r
        }
        else {
            proof {
                reveal_strlit("f");
            }
            let r = "f".to_owned();
            assert(r@ =~= seq![spec_hex_char(d as int)]);
            r
        }
}

/// Rendering a packed color value as a display string.
pub trait IntoColorCode {
    /// The value fits the packed RGB range, so the rendering is exactly six
    /// digits wide.
    spec fn in_color_range(self) -> bool;

    /// The characters the rendering must consist of.
    spec fn color_code_spec(self) -> Seq<char>;

    /// The '#rrggbb' color-code string for this value.
    fn into_color_code(self) -> (r: String)
        requires
            self.in_color_range(),
        ensures
            r@ == self.color_code_spec(),
    ;
}

impl IntoColorCode for u32 {
    open spec fn in_color_range(self) -> bool {
        self <= 0xffffff
    }

    open spec fn color_code_spec(self) -> Seq<char> {
        color_code_chars(self)
    }

    fn into_color_code(self) -> (r: String) {
        proof {
            reveal_strlit("#");
        }
        let mut s = "#".to_owned();
        let d5 = hex_digit_str(self / 0x100000 % 16);
        let d4 = hex_digit_str(self / 0x10000 % 16);
        let d3 = hex_digit_str(self / 0x1000 % 16);
        let d2 = hex_digit_str(self / 0x100 % 16);
        let d1 = hex_digit_str(self / 0x10 % 16);
        let d0 = hex_digit_str(self % 16);
        s.append(d5.as_str());
        s.append(d4.as_str());
        s.append(d3.as_str());
        s.append(d2.as_str());
        s.append(d1.as_str());
        s.append(d0.as_str());
        proof {
            assert(s@ =~= color_code_chars(self));
        }
        s
    }
}

} // verus!
