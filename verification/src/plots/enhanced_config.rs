//! Color schemes, configuration enums, and the validated plot
//! configuration.

use vstd::prelude::*;
use crate::data_type::{DataType, type_debug};
use crate::query::{has_name, position, first_at, lemma_first_at_unique, lemma_position_some, contains_name};
use crate::text::{str_eq, joined3};

verus! {

/// A color given by its red, green and blue components (fully opaque).
#[derive(Debug, Clone, Copy, PartialEq, Eq, Structural)]
pub struct Rgb {
    pub r: u8,
    pub g: u8,
    pub b: u8,
}

/// Named color schemes.
#[derive(Debug, Clone, Copy, PartialEq, Eq, Structural)]
pub enum ColorScheme {

    Viridis,
    Plasma,
    Inferno,
    Magma,
    Cividis,
    Turbo,
    Rainbow,
    Spectral,
    RdYlBu,
    RdYlGn,
    RdBu,
    RdGy,
    PuOr,
    BrBG,
    PiYG,
    PRGn,
    Pastel1,
    Pastel2,
    Set1,
    Set2,
    Set3,
    Tab10,
    Tab20,
    Tab20b,
    Tab20c,

}

impl Default for ColorScheme {
    fn default() -> (r: Self)
        ensures
            r == ColorScheme::Viridis,
    {
        ColorScheme::Viridis
    }
}

/// The base colors of the Viridis scheme.
pub open spec fn viridis_spec() -> Seq<Rgb> {
    seq![Rgb { r: 68, g: 1, b: 84 }, Rgb { r: 59, g: 82, b: 139 }, Rgb { r: 33, g: 145, b: 140 }, Rgb { r: 94, g: 201, b: 98 }, Rgb { r: 253, g: 231, b: 37 }]
}

/// The base colors of the Plasma scheme.
pub open spec fn plasma_spec() -> Seq<Rgb> {
    seq![Rgb { r: 13, g: 8, b: 135 }, Rgb { r: 84, g: 2, b: 163 }, Rgb { r: 139, g: 10, b: 165 }, Rgb { r: 185, g: 19, b: 114 }, Rgb { r: 219, g: 84, b: 77 }, Rgb { r: 249, g: 164, b: 63 }, Rgb { r: 254, g: 255, b: 136 }]
}

/// The base colors of the Inferno scheme.
pub open spec fn inferno_spec() -> Seq<Rgb> {
    seq![Rgb { r: 0, g: 0, b: 4 }, Rgb { r: 31, g: 12, b: 72 }, Rgb { r: 85, g: 15, b: 109 }, Rgb { r: 136, g: 34, b: 85 }, Rgb { r: 186, g: 54, b: 84 }, Rgb { r: 227, g: 89, b: 138 }, Rgb { r: 249, g: 140, b: 182 }, Rgb { r: 254, g: 197, b: 217 }, Rgb { r: 252, g: 247, b: 243 }]
}

/// The base colors of the Magma scheme.
pub open spec fn magma_spec() -> Seq<Rgb> {
    seq![Rgb { r: 0, g: 0, b: 4 }, Rgb { r: 28, g: 16, b: 68 }, Rgb { r: 79, g: 18, b: 123 }, Rgb { r: 129, g: 37, b: 129 }, Rgb { r: 181, g: 54, b: 122 }, Rgb { r: 229, g: 80, b: 57 }, Rgb { r: 251, g: 154, b: 153 }, Rgb { r: 254, g: 217, b: 118 }, Rgb { r: 252, g: 255, b: 164 }]
}

/// The base colors of the Cividis scheme.
pub open spec fn cividis_spec() -> Seq<Rgb> {
    seq![Rgb { r: 0, g: 32, b: 76 }, Rgb { r: 0, g: 84, b: 136 }, Rgb { r: 0, g: 135, b: 147 }, Rgb { r: 0, g: 167, b: 119 }, Rgb { r: 0, g: 191, b: 92 }, Rgb { r: 0, g: 211, b: 73 }, Rgb { r: 0, g: 230, b: 51 }, Rgb { r: 0, g: 248, b: 14 }, Rgb { r: 0, g: 255, b: 0 }]
}

/// The base colors of the Turbo scheme.
pub open spec fn turbo_spec() -> Seq<Rgb> {
    seq![Rgb { r: 35, g: 23, b: 27 }, Rgb { r: 51, g: 51, b: 153 }, Rgb { r: 0, g: 153, b: 255 }, Rgb { r: 0, g: 255, b: 255 }, Rgb { r: 0, g: 255, b: 0 }, Rgb { r: 255, g: 255, b: 0 }, Rgb { r: 255, g: 153, b: 0 }, Rgb { r: 255, g: 0, b: 0 }, Rgb { r: 153, g: 0, b: 0 }]
}

/// The base colors of the Rainbow scheme.
pub open spec fn rainbow_spec() -> Seq<Rgb> {
    seq![Rgb { r: 255, g: 0, b: 0 }, Rgb { r: 255, g: 127, b: 0 }, Rgb { r: 255, g: 255, b: 0 }, Rgb { r: 0, g: 255, b: 0 }, Rgb { r: 0, g: 0, b: 255 }, Rgb { r: 75, g: 0, b: 130 }, Rgb { r: 148, g: 0, b: 211 }]
}

/// The base colors of the Spectral scheme.
pub open spec fn spectral_spec() -> Seq<Rgb> {
    seq![Rgb { r: 158, g: 1, b: 66 }, Rgb { r: 213, g: 62, b: 79 }, Rgb { r: 244, g: 109, b: 67 }, Rgb { r: 253, g: 174, b: 97 }, Rgb { r: 254, g: 224, b: 139 }, Rgb { r: 230, g: 245, b: 152 }, Rgb { r: 171, g: 221, b: 164 }, Rgb { r: 102, g: 194, b: 165 }, Rgb { r: 50, g: 136, b: 189 }, Rgb { r: 94, g: 79, b: 162 }]
}

/// The base colors of the RdYlBu scheme.
pub open spec fn rdylbu_spec() -> Seq<Rgb> {
    seq![Rgb { r: 165, g: 0, b: 38 }, Rgb { r: 215, g: 48, b: 39 }, Rgb { r: 244, g: 109, b: 67 }, Rgb { r: 253, g: 174, b: 97 }, Rgb { r: 254, g: 224, b: 144 }, Rgb { r: 224, g: 243, b: 248 }, Rgb { r: 171, g: 217, b: 233 }, Rgb { r: 116, g: 173, b: 209 }, Rgb { r: 69, g: 117, b: 180 }, Rgb { r: 49, g: 54, b: 149 }]
}

/// The base colors of the RdYlGn scheme.
pub open spec fn rdylgn_spec() -> Seq<Rgb> {
    seq![Rgb { r: 165, g: 0, b: 38 }, Rgb { r: 215, g: 48, b: 39 }, Rgb { r: 244, g: 109, b: 67 }, Rgb { r: 253, g: 174, b: 97 }, Rgb { r: 254, g: 224, b: 139 }, Rgb { r: 217, g: 239, b: 139 }, Rgb { r: 166, g: 217, b: 106 }, Rgb { r: 102, g: 189, b: 99 }, Rgb { r: 26, g: 152, b: 80 }, Rgb { r: 0, g: 104, b: 55 }]
}

/// The base colors of the RdBu scheme.
pub open spec fn rdbu_spec() -> Seq<Rgb> {
    seq![Rgb { r: 165, g: 0, b: 38 }, Rgb { r: 215, g: 48, b: 39 }, Rgb { r: 244, g: 109, b: 67 }, Rgb { r: 253, g: 174, b: 97 }, Rgb { r: 254, g: 224, b: 144 }, Rgb { r: 224, g: 243, b: 248 }, Rgb { r: 171, g: 217, b: 233 }, Rgb { r: 116, g: 173, b: 209 }, Rgb { r: 69, g: 117, b: 180 }, Rgb { r: 49, g: 54, b: 149 }]
}

/// The base colors of the RdGy scheme.
pub open spec fn rdgy_spec() -> Seq<Rgb> {
    seq![Rgb { r: 165, g: 0, b: 38 }, Rgb { r: 215, g: 48, b: 39 }, Rgb { r: 244, g: 109, b: 67 }, Rgb { r: 253, g: 174, b: 97 }, Rgb { r: 254, g: 224, b: 144 }, Rgb { r: 224, g: 224, b: 224 }, Rgb { r: 186, g: 186, b: 186 }, Rgb { r: 135, g: 135, b: 135 }, Rgb { r: 77, g: 77, b: 77 }, Rgb { r: 26, g: 26, b: 26 }]
}

/// The base colors of the PuOr scheme.
pub open spec fn puor_spec() -> Seq<Rgb> {
    seq![Rgb { r: 127, g: 59, b: 8 }, Rgb { r: 179, g: 88, b: 6 }, Rgb { r: 224, g: 130, b: 20 }, Rgb { r: 253, g: 184, b: 99 }, Rgb { r: 254, g: 224, b: 182 }, Rgb { r: 216, g: 218, b: 235 }, Rgb { r: 178, g: 171, b: 210 }, Rgb { r: 128, g: 115, b: 172 }, Rgb { r: 84, g: 39, b: 136 }, Rgb { r: 45, g: 0, b: 75 }]
}

/// The base colors of the BrBG scheme.
pub open spec fn brbg_spec() -> Seq<Rgb> {
    seq![Rgb { r: 84, g: 48, b: 5 }, Rgb { r: 140, g: 81, b: 10 }, Rgb { r: 191, g: 129, b: 45 }, Rgb { r: 223, g: 194, b: 125 }, Rgb { r: 246, g: 232, b: 195 }, Rgb { r: 199, g: 234, b: 229 }, Rgb { r: 128, g: 205, b: 193 }, Rgb { r: 53, g: 151, b: 143 }, Rgb { r: 1, g: 102, b: 94 }, Rgb { r: 0, g: 60, b: 48 }]
}

/// The base colors of the PiYG scheme.
pub open spec fn piyg_spec() -> Seq<Rgb> {
    seq![Rgb { r: 142, g: 1, b: 82 }, Rgb { r: 197, g: 27, b: 125 }, Rgb { r: 222, g: 119, b: 174 }, Rgb { r: 241, g: 182, b: 218 }, Rgb { r: 253, g: 224, b: 239 }, Rgb { r: 230, g: 245, b: 208 }, Rgb { r: 184, g: 225, b: 134 }, Rgb { r: 127, g: 188, b: 65 }, Rgb { r: 77, g: 146, b: 33 }, Rgb { r: 39, g: 100, b: 25 }]
}

/// The base colors of the PRGn scheme.
pub open spec fn prgn_spec() -> Seq<Rgb> {
    seq![Rgb { r: 64, g: 0, b: 75 }, Rgb { r: 118, g: 42, b: 131 }, Rgb { r: 153, g: 112, b: 171 }, Rgb { r: 194, g: 165, b: 207 }, Rgb { r: 231, g: 212, b: 232 }, Rgb { r: 217, g: 240, b: 211 }, Rgb { r: 166, g: 219, b: 160 }, Rgb { r: 90, g: 174, b: 97 }, Rgb { r: 27, g: 120, b: 55 }, Rgb { r: 0, g: 68, b: 27 }]
}

/// The base colors of the Pastel1 scheme.
pub open spec fn pastel1_spec() -> Seq<Rgb> {
    seq![Rgb { r: 251, g: 180, b: 174 }, Rgb { r: 179, g: 205, b: 227 }, Rgb { r: 204, g: 235, b: 197 }, Rgb { r: 222, g: 203, b: 228 }, Rgb { r: 254, g: 217, b: 166 }, Rgb { r: 255, g: 255, b: 204 }, Rgb { r: 229, g: 216, b: 189 }, Rgb { r: 253, g: 218, b: 236 }, Rgb { r: 242, g: 242, b: 242 }]
}

/// The base colors of the Pastel2 scheme.
pub open spec fn pastel2_spec() -> Seq<Rgb> {
    seq![Rgb { r: 179, g: 226, b: 205 }, Rgb { r: 253, g: 205, b: 172 }, Rgb { r: 203, g: 213, b: 232 }, Rgb { r: 244, g: 202, b: 228 }, Rgb { r: 230, g: 245, b: 201 }, Rgb { r: 255, g: 242, b: 174 }, Rgb { r: 241, g: 226, b: 204 }, Rgb { r: 204, g: 204, b: 204 }]
}

/// The base colors of the Set1 scheme.
pub open spec fn set1_spec() -> Seq<Rgb> {
    seq![Rgb { r: 228, g: 26, b: 28 }, Rgb { r: 55, g: 126, b: 184 }, Rgb { r: 77, g: 175, b: 74 }, Rgb { r: 152, g: 78, b: 163 }, Rgb { r: 255, g: 127, b: 0 }, Rgb { r: 166, g: 86, b: 40 }, Rgb { r: 247, g: 129, b: 191 }, Rgb { r: 153, g: 153, b: 153 }, Rgb { r: 23, g: 190, b: 207 }]
}

/// The base colors of the Set2 scheme.
pub open spec fn set2_spec() -> Seq<Rgb> {
    seq![Rgb { r: 102, g: 194, b: 165 }, Rgb { r: 252, g: 141, b: 98 }, Rgb { r: 141, g: 160, b: 203 }, Rgb { r: 231, g: 138, b: 195 }, Rgb { r: 166, g: 216, b: 84 }, Rgb { r: 255, g: 217, b: 47 }, Rgb { r: 229, g: 196, b: 148 }, Rgb { r: 179, g: 179, b: 179 }]
}

/// The base colors of the Set3 scheme.
pub open spec fn set3_spec() -> Seq<Rgb> {
    seq![Rgb { r: 141, g: 211, b: 199 }, Rgb { r: 255, g: 255, b: 179 }, Rgb { r: 190, g: 186, b: 218 }, Rgb { r: 251, g: 128, b: 114 }, Rgb { r: 128, g: 177, b: 211 }, Rgb { r: 253, g: 180, b: 98 }, Rgb { r: 179, g: 222, b: 105 }, Rgb { r: 252, g: 205, b: 229 }, Rgb { r: 217, g: 217, b: 217 }, Rgb { r: 188, g: 128, b: 189 }, Rgb { r: 204, g: 235, b: 197 }, Rgb { r: 255, g: 237, b: 111 }]
}

/// The base colors of the Tab10 scheme.
pub open spec fn tab10_spec() -> Seq<Rgb> {
    seq![Rgb { r: 31, g: 119, b: 180 }, Rgb { r: 255, g: 127, b: 14 }, Rgb { r: 44, g: 160, b: 44 }, Rgb { r: 214, g: 39, b: 40 }, Rgb { r: 148, g: 103, b: 189 }, Rgb { r: 140, g: 86, b: 75 }, Rgb { r: 227, g: 119, b: 194 }, Rgb { r: 127, g: 127, b: 127 }, Rgb { r: 188, g: 189, b: 34 }, Rgb { r: 23, g: 190, b: 207 }]
}

/// The base colors of the Tab20 scheme.
pub open spec fn tab20_spec() -> Seq<Rgb> {
    seq![Rgb { r: 31, g: 119, b: 180 }, Rgb { r: 174, g: 199, b: 232 }, Rgb { r: 255, g: 127, b: 14 }, Rgb { r: 255, g: 187, b: 120 }, Rgb { r: 44, g: 160, b: 44 }, Rgb { r: 152, g: 223, b: 138 }, Rgb { r: 214, g: 39, b: 40 }, Rgb { r: 255, g: 152, b: 150 }, Rgb { r: 148, g: 103, b: 189 }, Rgb { r: 197, g: 176, b: 213 }, Rgb { r: 140, g: 86, b: 75 }, Rgb { r: 196, g: 156, b: 148 }, Rgb { r: 227, g: 119, b: 194 }, Rgb { r: 247, g: 182, b: 210 }, Rgb { r: 127, g: 127, b: 127 }, Rgb { r: 199, g: 199, b: 199 }, Rgb { r: 188, g: 189, b: 34 }, Rgb { r: 219, g: 219, b: 141 }, Rgb { r: 23, g: 190, b: 207 }, Rgb { r: 158, g: 218, b: 229 }]
}

/// The base colors of the Tab20b scheme.
pub open spec fn tab20b_spec() -> Seq<Rgb> {
    seq![Rgb { r: 57, g: 59, b: 121 }, Rgb { r: 82, g: 84, b: 163 }, Rgb { r: 107, g: 110, b: 207 }, Rgb { r: 156, g: 158, b: 222 }, Rgb { r: 99, g: 121, b: 57 }, Rgb { r: 140, g: 162, b: 82 }, Rgb { r: 181, g: 207, b: 107 }, Rgb { r: 206, g: 219, b: 156 }, Rgb { r: 140, g: 109, b: 49 }, Rgb { r: 189, g: 158, b: 57 }, Rgb { r: 231, g: 186, b: 82 }, Rgb { r: 231, g: 203, b: 148 }, Rgb { r: 132, g: 60, b: 57 }, Rgb { r: 173, g: 73, b: 74 }, Rgb { r: 214, g: 97, b: 107 }, Rgb { r: 231, g: 150, b: 156 }, Rgb { r: 123, g: 65, b: 115 }, Rgb { r: 165, g: 81, b: 148 }, Rgb { r: 206, g: 109, b: 189 }, Rgb { r: 222, g: 158, b: 214 }]
}

/// The base colors of the Tab20c scheme.
pub open spec fn tab20c_spec() -> Seq<Rgb> {
    seq![Rgb { r: 49, g: 130, b: 189 }, Rgb { r: 107, g: 174, b: 214 }, Rgb { r: 158, g: 202, b: 225 }, Rgb { r: 198, g: 219, b: 239 }, Rgb { r: 230, g: 85, b: 13 }, Rgb { r: 253, g: 141, b: 60 }, Rgb { r: 253, g: 174, b: 107 }, Rgb { r: 253, g: 208, b: 162 }, Rgb { r: 49, g: 163, b: 84 }, Rgb { r: 116, g: 196, b: 118 }, Rgb { r: 161, g: 217, b: 155 }, Rgb { r: 199, g: 233, b: 192 }, Rgb { r: 117, g: 107, b: 177 }, Rgb { r: 158, g: 154, b: 200 }, Rgb { r: 188, g: 189, b: 220 }, Rgb { r: 218, g: 218, b: 235 }, Rgb { r: 99, g: 99, b: 99 }, Rgb { r: 150, g: 150, b: 150 }, Rgb { r: 189, g: 189, b: 189 }, Rgb { r: 217, g: 217, b: 217 }]
}

/// The base colors of a scheme, in order.
pub open spec fn scheme_palette(s: ColorScheme) -> Seq<Rgb> {
    match s {
        ColorScheme::Viridis => viridis_spec(),
        ColorScheme::Plasma => plasma_spec(),
        ColorScheme::Inferno => inferno_spec(),
        ColorScheme::Magma => magma_spec(),
        ColorScheme::Cividis => cividis_spec(),
        ColorScheme::Turbo => turbo_spec(),
        ColorScheme::Rainbow => rainbow_spec(),
        ColorScheme::Spectral => spectral_spec(),
        ColorScheme::RdYlBu => rdylbu_spec(),
        ColorScheme::RdYlGn => rdylgn_spec(),
        ColorScheme::RdBu => rdbu_spec(),
        ColorScheme::RdGy => rdgy_spec(),
        ColorScheme::PuOr => puor_spec(),
        ColorScheme::BrBG => brbg_spec(),
        ColorScheme::PiYG => piyg_spec(),
        ColorScheme::PRGn => prgn_spec(),
        ColorScheme::Pastel1 => pastel1_spec(),
        ColorScheme::Pastel2 => pastel2_spec(),
        ColorScheme::Set1 => set1_spec(),
        ColorScheme::Set2 => set2_spec(),
        ColorScheme::Set3 => set3_spec(),
        ColorScheme::Tab10 => tab10_spec(),
        ColorScheme::Tab20 => tab20_spec(),
        ColorScheme::Tab20b => tab20b_spec(),
        ColorScheme::Tab20c => tab20c_spec(),
    }
}

/// The base colors of the Viridis scheme.
fn viridis_palette() -> (r: Vec<Rgb>)
    ensures
        r@ == viridis_spec(),
{
    let v = vec![Rgb { r: 68, g: 1, b: 84 }, Rgb { r: 59, g: 82, b: 139 }, Rgb { r: 33, g: 145, b: 140 }, Rgb { r: 94, g: 201, b: 98 }, Rgb { r: 253, g: 231, b: 37 }];
    assert(v@ =~= viridis_spec());
    v
}

/// The base colors of the Plasma scheme.
fn plasma_palette() -> (r: Vec<Rgb>)
    ensures
        r@ == plasma_spec(),
{
    let v = vec![Rgb { r: 13, g: 8, b: 135 }, Rgb { r: 84, g: 2, b: 163 }, Rgb { r: 139, g: 10, b: 165 }, Rgb { r: 185, g: 19, b: 114 }, Rgb { r: 219, g: 84, b: 77 }, Rgb { r: 249, g: 164, b: 63 }, Rgb { r: 254, g: 255, b: 136 }];
    assert(v@ =~= plasma_spec());
    v
}

/// The base colors of the Inferno scheme.
fn inferno_palette() -> (r: Vec<Rgb>)
    ensures
        r@ == inferno_spec(),
{
    let v = vec![Rgb { r: 0, g: 0, b: 4 }, Rgb { r: 31, g: 12, b: 72 }, Rgb { r: 85, g: 15, b: 109 }, Rgb { r: 136, g: 34, b: 85 }, Rgb { r: 186, g: 54, b: 84 }, Rgb { r: 227, g: 89, b: 138 }, Rgb { r: 249, g: 140, b: 182 }, Rgb { r: 254, g: 197, b: 217 }, Rgb { r: 252, g: 247, b: 243 }];
    assert(v@ =~= inferno_spec());
    v
}

/// The base colors of the Magma scheme.
fn magma_palette() -> (r: Vec<Rgb>)
    ensures
        r@ == magma_spec(),
{
    let v = vec![Rgb { r: 0, g: 0, b: 4 }, Rgb { r: 28, g: 16, b: 68 }, Rgb { r: 79, g: 18, b: 123 }, Rgb { r: 129, g: 37, b: 129 }, Rgb { r: 181, g: 54, b: 122 }, Rgb { r: 229, g: 80, b: 57 }, Rgb { r: 251, g: 154, b: 153 }, Rgb { r: 254, g: 217, b: 118 }, Rgb { r: 252, g: 255, b: 164 }];
    assert(v@ =~= magma_spec());
    v
}

/// The base colors of the Cividis scheme.
fn cividis_palette() -> (r: Vec<Rgb>)
    ensures
        r@ == cividis_spec(),
{
    let v = vec![Rgb { r: 0, g: 32, b: 76 }, Rgb { r: 0, g: 84, b: 136 }, Rgb { r: 0, g: 135, b: 147 }, Rgb { r: 0, g: 167, b: 119 }, Rgb { r: 0, g: 191, b: 92 }, Rgb { r: 0, g: 211, b: 73 }, Rgb { r: 0, g: 230, b: 51 }, Rgb { r: 0, g: 248, b: 14 }, Rgb { r: 0, g: 255, b: 0 }];
    assert(v@ =~= cividis_spec());
    v
}

/// The base colors of the Turbo scheme.
fn turbo_palette() -> (r: Vec<Rgb>)
    ensures
        r@ == turbo_spec(),
{
    let v = vec![Rgb { r: 35, g: 23, b: 27 }, Rgb { r: 51, g: 51, b: 153 }, Rgb { r: 0, g: 153, b: 255 }, Rgb { r: 0, g: 255, b: 255 }, Rgb { r: 0, g: 255, b: 0 }, Rgb { r: 255, g: 255, b: 0 }, Rgb { r: 255, g: 153, b: 0 }, Rgb { r: 255, g: 0, b: 0 }, Rgb { r: 153, g: 0, b: 0 }];
    assert(v@ =~= turbo_spec());
    v
}

/// The base colors of the Rainbow scheme.
fn rainbow_palette() -> (r: Vec<Rgb>)
    ensures
        r@ == rainbow_spec(),
{
    let v = vec![Rgb { r: 255, g: 0, b: 0 }, Rgb { r: 255, g: 127, b: 0 }, Rgb { r: 255, g: 255, b: 0 }, Rgb { r: 0, g: 255, b: 0 }, Rgb { r: 0, g: 0, b: 255 }, Rgb { r: 75, g: 0, b: 130 }, Rgb { r: 148, g: 0, b: 211 }];
    assert(v@ =~= rainbow_spec());
    v
}

/// The base colors of the Spectral scheme.
fn spectral_palette() -> (r: Vec<Rgb>)
    ensures
        r@ == spectral_spec(),
{
    let v = vec![Rgb { r: 158, g: 1, b: 66 }, Rgb { r: 213, g: 62, b: 79 }, Rgb { r: 244, g: 109, b: 67 }, Rgb { r: 253, g: 174, b: 97 }, Rgb { r: 254, g: 224, b: 139 }, Rgb { r: 230, g: 245, b: 152 }, Rgb { r: 171, g: 221, b: 164 }, Rgb { r: 102, g: 194, b: 165 }, Rgb { r: 50, g: 136, b: 189 }, Rgb { r: 94, g: 79, b: 162 }];
    assert(v@ =~= spectral_spec());
    v
}

/// The base colors of the RdYlBu scheme.
fn rdylbu_palette() -> (r: Vec<Rgb>)
    ensures
        r@ == rdylbu_spec(),
{
    let v = vec![Rgb { r: 165, g: 0, b: 38 }, Rgb { r: 215, g: 48, b: 39 }, Rgb { r: 244, g: 109, b: 67 }, Rgb { r: 253, g: 174, b: 97 }, Rgb { r: 254, g: 224, b: 144 }, Rgb { r: 224, g: 243, b: 248 }, Rgb { r: 171, g: 217, b: 233 }, Rgb { r: 116, g: 173, b: 209 }, Rgb { r: 69, g: 117, b: 180 }, Rgb { r: 49, g: 54, b: 149 }];
    assert(v@ =~= rdylbu_spec());
    v
}

/// The base colors of the RdYlGn scheme.
fn rdylgn_palette() -> (r: Vec<Rgb>)
    ensures
        r@ == rdylgn_spec(),
{
    let v = vec![Rgb { r: 165, g: 0, b: 38 }, Rgb { r: 215, g: 48, b: 39 }, Rgb { r: 244, g: 109, b: 67 }, Rgb { r: 253, g: 174, b: 97 }, Rgb { r: 254, g: 224, b: 139 }, Rgb { r: 217, g: 239, b: 139 }, Rgb { r: 166, g: 217, b: 106 }, Rgb { r: 102, g: 189, b: 99 }, Rgb { r: 26, g: 152, b: 80 }, Rgb { r: 0, g: 104, b: 55 }];
    assert(v@ =~= rdylgn_spec());
    v
}

/// The base colors of the RdBu scheme.
fn rdbu_palette() -> (r: Vec<Rgb>)
    ensures
        r@ == rdbu_spec(),
{
    let v = vec![Rgb { r: 165, g: 0, b: 38 }, Rgb { r: 215, g: 48, b: 39 }, Rgb { r: 244, g: 109, b: 67 }, Rgb { r: 253, g: 174, b: 97 }, Rgb { r: 254, g: 224, b: 144 }, Rgb { r: 224, g: 243, b: 248 }, Rgb { r: 171, g: 217, b: 233 }, Rgb { r: 116, g: 173, b: 209 }, Rgb { r: 69, g: 117, b: 180 }, Rgb { r: 49, g: 54, b: 149 }];
    assert(v@ =~= rdbu_spec());
    v
}

/// The base colors of the RdGy scheme.
fn rdgy_palette() -> (r: Vec<Rgb>)
    ensures
        r@ == rdgy_spec(),
{
    let v = vec![Rgb { r: 165, g: 0, b: 38 }, Rgb { r: 215, g: 48, b: 39 }, Rgb { r: 244, g: 109, b: 67 }, Rgb { r: 253, g: 174, b: 97 }, Rgb { r: 254, g: 224, b: 144 }, Rgb { r: 224, g: 224, b: 224 }, Rgb { r: 186, g: 186, b: 186 }, Rgb { r: 135, g: 135, b: 135 }, Rgb { r: 77, g: 77, b: 77 }, Rgb { r: 26, g: 26, b: 26 }];
    assert(v@ =~= rdgy_spec());
    v
}

/// The base colors of the PuOr scheme.
fn puor_palette() -> (r: Vec<Rgb>)
    ensures
        r@ == puor_spec(),
{
    let v = vec![Rgb { r: 127, g: 59, b: 8 }, Rgb { r: 179, g: 88, b: 6 }, Rgb { r: 224, g: 130, b: 20 }, Rgb { r: 253, g: 184, b: 99 }, Rgb { r: 254, g: 224, b: 182 }, Rgb { r: 216, g: 218, b: 235 }, Rgb { r: 178, g: 171, b: 210 }, Rgb { r: 128, g: 115, b: 172 }, Rgb { r: 84, g: 39, b: 136 }, Rgb { r: 45, g: 0, b: 75 }];
    assert(v@ =~= puor_spec());
    v
}

/// The base colors of the BrBG scheme.
fn brbg_palette() -> (r: Vec<Rgb>)
    ensures
        r@ == brbg_spec(),
{
    let v = vec![Rgb { r: 84, g: 48, b: 5 }, Rgb { r: 140, g: 81, b: 10 }, Rgb { r: 191, g: 129, b: 45 }, Rgb { r: 223, g: 194, b: 125 }, Rgb { r: 246, g: 232, b: 195 }, Rgb { r: 199, g: 234, b: 229 }, Rgb { r: 128, g: 205, b: 193 }, Rgb { r: 53, g: 151, b: 143 }, Rgb { r: 1, g: 102, b: 94 }, Rgb { r: 0, g: 60, b: 48 }];
    assert(v@ =~= brbg_spec());
    v
}

/// The base colors of the PiYG scheme.
fn piyg_palette() -> (r: Vec<Rgb>)
    ensures
        r@ == piyg_spec(),
{
    let v = vec![Rgb { r: 142, g: 1, b: 82 }, Rgb { r: 197, g: 27, b: 125 }, Rgb { r: 222, g: 119, b: 174 }, Rgb { r: 241, g: 182, b: 218 }, Rgb { r: 253, g: 224, b: 239 }, Rgb { r: 230, g: 245, b: 208 }, Rgb { r: 184, g: 225, b: 134 }, Rgb { r: 127, g: 188, b: 65 }, Rgb { r: 77, g: 146, b: 33 }, Rgb { r: 39, g: 100, b: 25 }];
    assert(v@ =~= piyg_spec());
    v
}

/// The base colors of the PRGn scheme.
fn prgn_palette() -> (r: Vec<Rgb>)
    ensures
        r@ == prgn_spec(),
{
    let v = vec![Rgb { r: 64, g: 0, b: 75 }, Rgb { r: 118, g: 42, b: 131 }, Rgb { r: 153, g: 112, b: 171 }, Rgb { r: 194, g: 165, b: 207 }, Rgb { r: 231, g: 212, b: 232 }, Rgb { r: 217, g: 240, b: 211 }, Rgb { r: 166, g: 219, b: 160 }, Rgb { r: 90, g: 174, b: 97 }, Rgb { r: 27, g: 120, b: 55 }, Rgb { r: 0, g: 68, b: 27 }];
    assert(v@ =~= prgn_spec());
    v
}

/// The base colors of the Pastel1 scheme.
fn pastel1_palette() -> (r: Vec<Rgb>)
    ensures
        r@ == pastel1_spec(),
{
    let v = vec![Rgb { r: 251, g: 180, b: 174 }, Rgb { r: 179, g: 205, b: 227 }, Rgb { r: 204, g: 235, b: 197 }, Rgb { r: 222, g: 203, b: 228 }, Rgb { r: 254, g: 217, b: 166 }, Rgb { r: 255, g: 255, b: 204 }, Rgb { r: 229, g: 216, b: 189 }, Rgb { r: 253, g: 218, b: 236 }, Rgb { r: 242, g: 242, b: 242 }];
    assert(v@ =~= pastel1_spec());
    v
}

/// The base colors of the Pastel2 scheme.
fn pastel2_palette() -> (r: Vec<Rgb>)
    ensures
        r@ == pastel2_spec(),
{
    let v = vec![Rgb { r: 179, g: 226, b: 205 }, Rgb { r: 253, g: 205, b: 172 }, Rgb { r: 203, g: 213, b: 232 }, Rgb { r: 244, g: 202, b: 228 }, Rgb { r: 230, g: 245, b: 201 }, Rgb { r: 255, g: 242, b: 174 }, Rgb { r: 241, g: 226, b: 204 }, Rgb { r: 204, g: 204, b: 204 }];
    assert(v@ =~= pastel2_spec());
    v
}

/// The base colors of the Set1 scheme.
fn set1_palette() -> (r: Vec<Rgb>)
    ensures
        r@ == set1_spec(),
{
    let v = vec![Rgb { r: 228, g: 26, b: 28 }, Rgb { r: 55, g: 126, b: 184 }, Rgb { r: 77, g: 175, b: 74 }, Rgb { r: 152, g: 78, b: 163 }, Rgb { r: 255, g: 127, b: 0 }, Rgb { r: 166, g: 86, b: 40 }, Rgb { r: 247, g: 129, b: 191 }, Rgb { r: 153, g: 153, b: 153 }, Rgb { r: 23, g: 190, b: 207 }];
    assert(v@ =~= set1_spec());
    v
}

/// The base colors of the Set2 scheme.
fn set2_palette() -> (r: Vec<Rgb>)
    ensures
        r@ == set2_spec(),
{
    let v = vec![Rgb { r: 102, g: 194, b: 165 }, Rgb { r: 252, g: 141, b: 98 }, Rgb { r: 141, g: 160, b: 203 }, Rgb { r: 231, g: 138, b: 195 }, Rgb { r: 166, g: 216, b: 84 }, Rgb { r: 255, g: 217, b: 47 }, Rgb { r: 229, g: 196, b: 148 }, Rgb { r: 179, g: 179, b: 179 }];
    assert(v@ =~= set2_spec());
    v
}

/// The base colors of the Set3 scheme.
fn set3_palette() -> (r: Vec<Rgb>)
    ensures
        r@ == set3_spec(),
{
    let v = vec![Rgb { r: 141, g: 211, b: 199 }, Rgb { r: 255, g: 255, b: 179 }, Rgb { r: 190, g: 186, b: 218 }, Rgb { r: 251, g: 128, b: 114 }, Rgb { r: 128, g: 177, b: 211 }, Rgb { r: 253, g: 180, b: 98 }, Rgb { r: 179, g: 222, b: 105 }, Rgb { r: 252, g: 205, b: 229 }, Rgb { r: 217, g: 217, b: 217 }, Rgb { r: 188, g: 128, b: 189 }, Rgb { r: 204, g: 235, b: 197 }, Rgb { r: 255, g: 237, b: 111 }];
    assert(v@ =~= set3_spec());
    v
}

/// The base colors of the Tab10 scheme.
fn tab10_palette() -> (r: Vec<Rgb>)
    ensures
        r@ == tab10_spec(),
{
    let v = vec![Rgb { r: 31, g: 119, b: 180 }, Rgb { r: 255, g: 127, b: 14 }, Rgb { r: 44, g: 160, b: 44 }, Rgb { r: 214, g: 39, b: 40 }, Rgb { r: 148, g: 103, b: 189 }, Rgb { r: 140, g: 86, b: 75 }, Rgb { r: 227, g: 119, b: 194 }, Rgb { r: 127, g: 127, b: 127 }, Rgb { r: 188, g: 189, b: 34 }, Rgb { r: 23, g: 190, b: 207 }];
    assert(v@ =~= tab10_spec());
    v
}

/// The base colors of the Tab20 scheme.
fn tab20_palette() -> (r: Vec<Rgb>)
    ensures
        r@ == tab20_spec(),
{
    let v = vec![Rgb { r: 31, g: 119, b: 180 }, Rgb { r: 174, g: 199, b: 232 }, Rgb { r: 255, g: 127, b: 14 }, Rgb { r: 255, g: 187, b: 120 }, Rgb { r: 44, g: 160, b: 44 }, Rgb { r: 152, g: 223, b: 138 }, Rgb { r: 214, g: 39, b: 40 }, Rgb { r: 255, g: 152, b: 150 }, Rgb { r: 148, g: 103, b: 189 }, Rgb { r: 197, g: 176, b: 213 }, Rgb { r: 140, g: 86, b: 75 }, Rgb { r: 196, g: 156, b: 148 }, Rgb { r: 227, g: 119, b: 194 }, Rgb { r: 247, g: 182, b: 210 }, Rgb { r: 127, g: 127, b: 127 }, Rgb { r: 199, g: 199, b: 199 }, Rgb { r: 188, g: 189, b: 34 }, Rgb { r: 219, g: 219, b: 141 }, Rgb { r: 23, g: 190, b: 207 }, Rgb { r: 158, g: 218, b: 229 }];
    assert(v@ =~= tab20_spec());
    v
}

/// The base colors of the Tab20b scheme.
fn tab20b_palette() -> (r: Vec<Rgb>)
    ensures
        r@ == tab20b_spec(),
{
    let v = vec![Rgb { r: 57, g: 59, b: 121 }, Rgb { r: 82, g: 84, b: 163 }, Rgb { r: 107, g: 110, b: 207 }, Rgb { r: 156, g: 158, b: 222 }, Rgb { r: 99, g: 121, b: 57 }, Rgb { r: 140, g: 162, b: 82 }, Rgb { r: 181, g: 207, b: 107 }, Rgb { r: 206, g: 219, b: 156 }, Rgb { r: 140, g: 109, b: 49 }, Rgb { r: 189, g: 158, b: 57 }, Rgb { r: 231, g: 186, b: 82 }, Rgb { r: 231, g: 203, b: 148 }, Rgb { r: 132, g: 60, b: 57 }, Rgb { r: 173, g: 73, b: 74 }, Rgb { r: 214, g: 97, b: 107 }, Rgb { r: 231, g: 150, b: 156 }, Rgb { r: 123, g: 65, b: 115 }, Rgb { r: 165, g: 81, b: 148 }, Rgb { r: 206, g: 109, b: 189 }, Rgb { r: 222, g: 158, b: 214 }];
    assert(v@ =~= tab20b_spec());
    v
}

/// The base colors of the Tab20c scheme.
fn tab20c_palette() -> (r: Vec<Rgb>)
    ensures
        r@ == tab20c_spec(),
{
    let v = vec![Rgb { r: 49, g: 130, b: 189 }, Rgb { r: 107, g: 174, b: 214 }, Rgb { r: 158, g: 202, b: 225 }, Rgb { r: 198, g: 219, b: 239 }, Rgb { r: 230, g: 85, b: 13 }, Rgb { r: 253, g: 141, b: 60 }, Rgb { r: 253, g: 174, b: 107 }, Rgb { r: 253, g: 208, b: 162 }, Rgb { r: 49, g: 163, b: 84 }, Rgb { r: 116, g: 196, b: 118 }, Rgb { r: 161, g: 217, b: 155 }, Rgb { r: 199, g: 233, b: 192 }, Rgb { r: 117, g: 107, b: 177 }, Rgb { r: 158, g: 154, b: 200 }, Rgb { r: 188, g: 189, b: 220 }, Rgb { r: 218, g: 218, b: 235 }, Rgb { r: 99, g: 99, b: 99 }, Rgb { r: 150, g: 150, b: 150 }, Rgb { r: 189, g: 189, b: 189 }, Rgb { r: 217, g: 217, b: 217 }];
    assert(v@ =~= tab20c_spec());
    v
}

impl ColorScheme {
    /// The base colors of the scheme, in order.
    pub fn base_colors(&self) -> (r: Vec<Rgb>)
        ensures
            r@ == scheme_palette(*self),
    {
        match self {
            ColorScheme::Viridis => viridis_palette(),
            ColorScheme::Plasma => plasma_palette(),
            ColorScheme::Inferno => inferno_palette(),
            ColorScheme::Magma => magma_palette(),
            ColorScheme::Cividis => cividis_palette(),
            ColorScheme::Turbo => turbo_palette(),
            ColorScheme::Rainbow => rainbow_palette(),
            ColorScheme::Spectral => spectral_palette(),
            ColorScheme::RdYlBu => rdylbu_palette(),
            ColorScheme::RdYlGn => rdylgn_palette(),
            ColorScheme::RdBu => rdbu_palette(),
            ColorScheme::RdGy => rdgy_palette(),
            ColorScheme::PuOr => puor_palette(),
            ColorScheme::BrBG => brbg_palette(),
            ColorScheme::PiYG => piyg_palette(),
            ColorScheme::PRGn => prgn_palette(),
            ColorScheme::Pastel1 => pastel1_palette(),
            ColorScheme::Pastel2 => pastel2_palette(),
            ColorScheme::Set1 => set1_palette(),
            ColorScheme::Set2 => set2_palette(),
            ColorScheme::Set3 => set3_palette(),
            ColorScheme::Tab10 => tab10_palette(),
            ColorScheme::Tab20 => tab20_palette(),
            ColorScheme::Tab20b => tab20b_palette(),
            ColorScheme::Tab20c => tab20c_palette(),
        }
    }
}
/// The first `count` colors of `colors` when no blending between colors is
/// needed: none for zero, the first color for one, a prefix when the scheme
/// has enough colors. `None` when more colors are asked for than there are,
/// and the colors must be blended.
pub fn interpolate_colors_exact(colors: &Vec<Rgb>, count: usize) -> (r: Option<Vec<Rgb>>)
    requires
        colors.len() > 0,
    ensures
        count <= colors.len() ==> (r matches Some(v) && v@ == colors@.take(count as int)),
        count > colors.len() ==> r is None,
{
    if count == 0 {
        let v: Vec<Rgb> = Vec::new();
        assert(v@ =~= colors@.take(0));
        return Some(v);
    }
    if count == 1 {
        let v = vec![colors[0]];
        assert(v@ =~= colors@.take(1));
        return Some(v);
    }
    if count <= colors.len() {
        let mut v: Vec<Rgb> = Vec::new();
        let mut i: usize = 0;
        while i < count
            invariant
                i <= count <= colors.len(),
                v@ == colors@.take(i as int),
            decreases count - i,
        {
            v.push(colors[i]);
            assert(colors@.take(i as int).push(colors@[i as int]) =~= colors@.take(i + 1));
            i = i + 1;
        }
        return Some(v);
    }
    None
}

#[derive(Debug, Clone, Copy, PartialEq, Eq, Structural)]
pub enum LineStyle {
    Solid,
    Dashed,
    Dotted,
    DashDot,
}

#[derive(Debug, Clone, Copy, PartialEq, Eq, Structural)]
pub enum MarkerShape {
    Circle,
    Square,
    Diamond,
    Triangle,
    Cross,
    Plus,
    Star,
}

#[derive(Debug, Clone, Copy, PartialEq, Eq, Structural)]
pub enum StackingMode {
    Unstacked,
    Stacked,
    Percent,
}

#[derive(Debug, Clone, Copy, PartialEq, Eq, Structural)]
pub enum SortOrder {
    Unsorted,
    Ascending,
    Descending,
    ByValue,
}

#[derive(Debug, Clone, Copy, PartialEq, Eq, Structural)]
pub enum ValuePosition {
    Inside,
    Outside,
    Center,
}

#[derive(Debug, Clone, Copy, PartialEq, Eq, Structural)]
pub enum Orientation {
    Vertical,
    Horizontal,
}

#[derive(Debug, Clone, Copy, PartialEq, Eq, Structural)]
pub enum OutlierStyle {
    Points,
    Whiskers,
    Both,
}

#[derive(Debug, Clone, Copy, PartialEq, Eq, Structural)]
pub enum AggregationMethod {
    Sum,
    Mean,
    Count,
    Min,
    Max,
    Median,
}

#[derive(Debug, Clone, Copy, PartialEq, Eq, Structural)]
pub enum ColorScale {
    Linear,
    Log,
    SymLog,
    Custom,
}

#[derive(Debug, Clone, Copy, PartialEq, Eq, Structural)]
pub enum ViolinScale {
    Count,
    Width,
    Area,
}

#[derive(Debug, Clone, Copy, PartialEq, Eq, Structural)]
pub enum AnomalyMethod {
    IQR,
    ZScore,
    IsolationForest,
    LOF,
}

#[derive(Debug, Clone, Copy, PartialEq, Eq, Structural)]
pub enum CorrelationMethod {
    Pearson,
    Spearman,
    Kendall,
}

#[derive(Debug, Clone, Copy, PartialEq, Eq, Structural)]
pub enum ClusterMethod {
    NoClustering,
    Hierarchical,
    KMeans,
}

#[derive(Debug, Clone, Copy, PartialEq, Eq, Structural)]
pub enum DistributionType {
    Histogram,
    KDE,
    Box,
    Violin,
}

#[derive(Debug, Clone, Copy, PartialEq, Eq, Structural)]
pub enum BandwidthMethod {
    Silverman,
    Scott,
    Manual,
}

#[derive(Debug, Clone, Copy, PartialEq, Eq, Structural)]
pub enum Projection3D {
    Orthographic,
    Perspective,
}

#[derive(Debug, Clone, Copy, PartialEq, Eq, Structural)]
pub enum InterpolationMethod {
    Linear,
    Cubic,
    Nearest,
}

#[derive(Debug, Clone, Copy, PartialEq, Eq, Structural)]
pub enum StackOrder {
    Unordered,
    Ascending,
    Descending,
    InsideOut,
    OutsideIn,
}

#[derive(Debug, Clone, Copy, PartialEq, Eq, Structural)]
pub enum NetworkLayout {
    ForceDirected,
    Circular,
    Hierarchical,
    Random,
}

#[derive(Debug, Clone, Copy, PartialEq, Eq, Structural)]
pub enum GeoProjection {
    Mercator,
    Albers,
    Orthographic,
}

#[derive(Debug, Clone, Copy, PartialEq, Eq, Structural)]
pub enum GeoColorBy {
    Value,
    Category,
    Density,
}

#[derive(Debug, Clone, Copy, PartialEq, Eq, Structural)]
pub enum TimeAnalysisType {
    Trend,
    Seasonality,
    Decomposition,
    Forecasting,
}

#[derive(Debug, Clone, Copy, PartialEq, Eq, Structural)]
pub enum TreemapAlgorithm {
    Squarified,
    Slice,
    Dice,
}

/// Box plot specific configuration.
#[derive(Debug, Clone, Copy, PartialEq, Eq, Structural)]
pub struct BoxPlotConfig {
    pub show_outliers: bool,
    pub show_mean: bool,
    pub notched: bool,
    pub violin_overlay: bool,
    pub outlier_style: OutlierStyle,
}

impl Default for BoxPlotConfig {
    fn default() -> (r: Self)
        ensures
            r == (BoxPlotConfig {
                show_outliers: true,
                show_mean: false,
                notched: false,
                violin_overlay: false,
                outlier_style: OutlierStyle::Points,
            }),
    {
        BoxPlotConfig {
            show_outliers: true,
            show_mean: false,
            notched: false,
            violin_overlay: false,
            outlier_style: OutlierStyle::Points,
        }
    }
}

/// Distribution plot specific configuration.
#[derive(Debug, Clone, Copy, PartialEq, Eq, Structural)]
pub struct DistributionConfig {
    pub plot_type: DistributionType,
    pub show_kde: bool,
    pub show_histogram: bool,
    pub bandwidth_method: BandwidthMethod,
}

impl Default for DistributionConfig {
    fn default() -> (r: Self)
        ensures
            r == (DistributionConfig {
                plot_type: DistributionType::Histogram,
                show_kde: false,
                show_histogram: true,
                bandwidth_method: BandwidthMethod::Silverman,
            }),
    {
        DistributionConfig {
            plot_type: DistributionType::Histogram,
            show_kde: false,
            show_histogram: true,
            bandwidth_method: BandwidthMethod::Silverman,
        }
    }
}

/// Contour plot specific configuration.
#[derive(Debug, Clone, Copy, PartialEq, Eq, Structural)]
pub struct ContourConfig {
    pub levels: usize,
    pub smooth_contours: bool,
    pub fill_contours: bool,
    pub show_labels: bool,
}

impl Default for ContourConfig {
    fn default() -> (r: Self)
        ensures
            r == (ContourConfig {
                levels: 10,
                smooth_contours: true,
                fill_contours: true,
                show_labels: false,
            }),
    {
        ContourConfig { levels: 10, smooth_contours: true, fill_contours: true, show_labels: false }
    }
}

/// Geographic plot specific configuration.
#[derive(Debug, Clone, Copy, PartialEq, Eq, Structural)]
pub struct GeoConfig {
    pub projection: GeoProjection,
    pub show_coastlines: bool,
    pub show_countries: bool,
    pub color_by: GeoColorBy,
}

impl Default for GeoConfig {
    fn default() -> (r: Self)
        ensures
            r == (GeoConfig {
                projection: GeoProjection::Mercator,
                show_coastlines: true,
                show_countries: true,
                color_by: GeoColorBy::Value,
            }),
    {
        GeoConfig {
            projection: GeoProjection::Mercator,
            show_coastlines: true,
            show_countries: true,
            color_by: GeoColorBy::Value,
        }
    }
}

/// Time analysis specific configuration.
#[derive(Debug, Clone, Copy, PartialEq, Eq, Structural)]
pub struct TimeAnalysisConfig {
    pub analysis_type: TimeAnalysisType,
    pub window_size: usize,
    pub show_trend: bool,
    pub show_seasonality: bool,
}

impl Default for TimeAnalysisConfig {
    fn default() -> (r: Self)
        ensures
            r == (TimeAnalysisConfig {
                analysis_type: TimeAnalysisType::Trend,
                window_size: 10,
                show_trend: true,
                show_seasonality: false,
            }),
    {
        TimeAnalysisConfig {
            analysis_type: TimeAnalysisType::Trend,
            window_size: 10,
            show_trend: true,
            show_seasonality: false,
        }
    }
}

/// Which plot a configuration is specific to.
#[derive(Debug, Clone, Copy, PartialEq, Eq, Structural)]
pub enum PlotSpecificKind {
    Unspecified,
    LineChart,
    ScatterPlot,
    BarChart,
    Histogram,
    BoxPlot,
    Heatmap,
    Violin,
    Anomaly,
    Correlation,
    Distribution,
    Scatter3D,
    Surface3D,
    Contour,
    ParallelCoordinates,
    Radar,
    Sankey,
    Treemap,
    Sunburst,
    Network,
    Geo,
    TimeAnalysis,
    Candlestick,
    Stream,
    Polar,
}

/// The plot kind a plot type name selects.
pub open spec fn kind_for_name(s: Seq<char>) -> PlotSpecificKind {
    if s == "line"@ {
        PlotSpecificKind::LineChart
    } else if s == "scatter"@ {
        PlotSpecificKind::ScatterPlot
    } else if s == "bar"@ {
        PlotSpecificKind::BarChart
    } else if s == "histogram"@ {
        PlotSpecificKind::Histogram
    } else if s == "box"@ {
        PlotSpecificKind::BoxPlot
    } else if s == "heatmap"@ {
        PlotSpecificKind::Heatmap
    } else if s == "violin"@ {
        PlotSpecificKind::Violin
    } else if s == "anomaly"@ {
        PlotSpecificKind::Anomaly
    } else if s == "correlation"@ {
        PlotSpecificKind::Correlation
    } else if s == "distribution"@ {
        PlotSpecificKind::Distribution
    } else if s == "scatter3d"@ {
        PlotSpecificKind::Scatter3D
    } else if s == "surface3d"@ {
        PlotSpecificKind::Surface3D
    } else if s == "contour"@ {
        PlotSpecificKind::Contour
    } else if s == "parallel_coordinates"@ {
        PlotSpecificKind::ParallelCoordinates
    } else if s == "radar"@ {
        PlotSpecificKind::Radar
    } else if s == "sankey"@ {
        PlotSpecificKind::Sankey
    } else if s == "treemap"@ {
        PlotSpecificKind::Treemap
    } else if s == "sunburst"@ {
        PlotSpecificKind::Sunburst
    } else if s == "network"@ {
        PlotSpecificKind::Network
    } else if s == "geo"@ {
        PlotSpecificKind::Geo
    } else if s == "time_analysis"@ {
        PlotSpecificKind::TimeAnalysis
    } else if s == "candlestick"@ {
        PlotSpecificKind::Candlestick
    } else if s == "stream"@ {
        PlotSpecificKind::Stream
    } else if s == "polar"@ {
        PlotSpecificKind::Polar
    } else {
        PlotSpecificKind::Unspecified
    }
}

/// The plot kind a plot type name selects.
pub fn kind_from_name(plot_type: &str) -> (r: PlotSpecificKind)
    ensures
        r == kind_for_name(plot_type@),
{
    if str_eq(plot_type, "line") {
        PlotSpecificKind::LineChart
    } else if str_eq(plot_type, "scatter") {
        PlotSpecificKind::ScatterPlot
    } else if str_eq(plot_type, "bar") {
        PlotSpecificKind::BarChart
    } else if str_eq(plot_type, "histogram") {
        PlotSpecificKind::Histogram
    } else if str_eq(plot_type, "box") {
        PlotSpecificKind::BoxPlot
    } else if str_eq(plot_type, "heatmap") {
        PlotSpecificKind::Heatmap
    } else if str_eq(plot_type, "violin") {
        PlotSpecificKind::Violin
    } else if str_eq(plot_type, "anomaly") {
        PlotSpecificKind::Anomaly
    } else if str_eq(plot_type, "correlation") {
        PlotSpecificKind::Correlation
    } else if str_eq(plot_type, "distribution") {
        PlotSpecificKind::Distribution
    } else if str_eq(plot_type, "scatter3d") {
        PlotSpecificKind::Scatter3D
    } else if str_eq(plot_type, "surface3d") {
        PlotSpecificKind::Surface3D
    } else if str_eq(plot_type, "contour") {
        PlotSpecificKind::Contour
    } else if str_eq(plot_type, "parallel_coordinates") {
        PlotSpecificKind::ParallelCoordinates
    } else if str_eq(plot_type, "radar") {
        PlotSpecificKind::Radar
    } else if str_eq(plot_type, "sankey") {
        PlotSpecificKind::Sankey
    } else if str_eq(plot_type, "treemap") {
        PlotSpecificKind::Treemap
    } else if str_eq(plot_type, "sunburst") {
        PlotSpecificKind::Sunburst
    } else if str_eq(plot_type, "network") {
        PlotSpecificKind::Network
    } else if str_eq(plot_type, "geo") {
        PlotSpecificKind::Geo
    } else if str_eq(plot_type, "time_analysis") {
        PlotSpecificKind::TimeAnalysis
    } else if str_eq(plot_type, "candlestick") {
        PlotSpecificKind::Candlestick
    } else if str_eq(plot_type, "stream") {
        PlotSpecificKind::Stream
    } else if str_eq(plot_type, "polar") {
        PlotSpecificKind::Polar
    } else {
        PlotSpecificKind::Unspecified
    }
}

/// A plot configuration with its data sources, display and performance
/// settings, and the outcome of its last validation.
pub struct EnhancedPlotConfig {
    pub data_source_id: Option<String>,
    pub x_column: Option<String>,
    pub y_columns: Vec<String>,
    pub color_column: Option<String>,
    pub size_column: Option<String>,
    pub category_column: Option<String>,
    pub title: String,
    pub x_label: String,
    pub y_label: String,
    pub color_scheme: ColorScheme,
    pub show_legend: bool,
    pub show_grid: bool,
    pub show_axes_labels: bool,
    pub allow_zoom: bool,
    pub allow_pan: bool,
    pub allow_selection: bool,
    pub show_tooltips: bool,
    pub max_points: usize,
    pub enable_caching: bool,
    pub auto_sample: bool,
    pub plot_specific: PlotSpecificKind,
    pub validation_errors: Vec<ConfigValidationError>,
    pub is_valid: bool,
}

/// A problem found by validating a configuration.
#[derive(Debug)]
pub enum ConfigValidationError {
    /// No Y column is chosen.
    YColumnsRequired,
    /// A Y column is not in the data.
    YColumnNotFound { column: String },
    /// The X column is not in the data.
    XColumnNotFound { column: String },
    /// The color column is not in the data.
    ColorColumnNotFound { column: String },
    /// The size column is not in the data.
    SizeColumnNotFound { column: String },
    /// The category column is not in the data.
    CategoryColumnNotFound { column: String },
    /// A Y column is not numeric.
    YColumnNotNumeric { column: String, found: DataType },
    /// A line chart's or time analysis' X column is neither numeric nor temporal.
    XColumnNotNumericOrTemporal { column: String, found: DataType },
    /// A scatter plot's X column is not numeric.
    XColumnNotNumericForScatter { column: String, found: DataType },
    /// A bar chart's X column is neither numeric nor categorical.
    XColumnNotNumericOrCategorical { column: String, found: DataType },
    /// Another plot's X column is not numeric.
    XColumnNotNumeric { column: String, found: DataType },
}

/// The content of a `ConfigValidationError`, with names as characters.
pub enum ConfigIssue {
    YColumnsRequired,
    YColumnNotFound(Seq<char>),
    XColumnNotFound(Seq<char>),
    ColorColumnNotFound(Seq<char>),
    SizeColumnNotFound(Seq<char>),
    CategoryColumnNotFound(Seq<char>),
    YColumnNotNumeric(Seq<char>, DataType),
    XColumnNotNumericOrTemporal(Seq<char>, DataType),
    XColumnNotNumericForScatter(Seq<char>, DataType),
    XColumnNotNumericOrCategorical(Seq<char>, DataType),
    XColumnNotNumeric(Seq<char>, DataType),
}

impl ConfigValidationError {
    /// The content of the problem.
    pub open spec fn issue(self) -> ConfigIssue {
        match self {
            ConfigValidationError::YColumnsRequired => ConfigIssue::YColumnsRequired,
            ConfigValidationError::YColumnNotFound { column } => ConfigIssue::YColumnNotFound(
                column@,
            ),
            ConfigValidationError::XColumnNotFound { column } => ConfigIssue::XColumnNotFound(
                column@,
            ),
            ConfigValidationError::ColorColumnNotFound { column } =>
                ConfigIssue::ColorColumnNotFound(column@),
            ConfigValidationError::SizeColumnNotFound { column } => ConfigIssue::SizeColumnNotFound(
                column@,
            ),
            ConfigValidationError::CategoryColumnNotFound { column } =>
                ConfigIssue::CategoryColumnNotFound(column@),
            ConfigValidationError::YColumnNotNumeric { column, found } =>
                ConfigIssue::YColumnNotNumeric(column@, found),
            ConfigValidationError::XColumnNotNumericOrTemporal { column, found } =>
                ConfigIssue::XColumnNotNumericOrTemporal(column@, found),
            ConfigValidationError::XColumnNotNumericForScatter { column, found } =>
                ConfigIssue::XColumnNotNumericForScatter(column@, found),
            ConfigValidationError::XColumnNotNumericOrCategorical { column, found } =>
                ConfigIssue::XColumnNotNumericOrCategorical(column@, found),
            ConfigValidationError::XColumnNotNumeric { column, found } =>
                ConfigIssue::XColumnNotNumeric(column@, found),
        }
    }
}

/// The message shown for each configuration problem.
pub open spec fn config_issue_text(i: ConfigIssue) -> Seq<char> {
    match i {
        ConfigIssue::YColumnsRequired => "At least one Y column is required"@,
        ConfigIssue::YColumnNotFound(c) => "Y column '"@ + c + "' not found in data"@,
        ConfigIssue::XColumnNotFound(c) => "X column '"@ + c + "' not found in data"@,
        ConfigIssue::ColorColumnNotFound(c) => "Color column '"@ + c + "' not found in data"@,
        ConfigIssue::SizeColumnNotFound(c) => "Size column '"@ + c + "' not found in data"@,
        ConfigIssue::CategoryColumnNotFound(c) => "Category column '"@ + c + "' not found in data"@,
        ConfigIssue::YColumnNotNumeric(c, t) => "Y column '"@ + c + "' must be numeric, found "@ + type_debug(t),
        ConfigIssue::XColumnNotNumericOrTemporal(c, t) => "X column '"@ + c + "' must be numeric or temporal for line charts, found "@ + type_debug(t),
        ConfigIssue::XColumnNotNumericForScatter(c, t) => "X column '"@ + c + "' must be numeric for scatter plots, found "@ + type_debug(t),
        ConfigIssue::XColumnNotNumericOrCategorical(c, t) => "X column '"@ + c + "' must be numeric or categorical for bar charts, found "@ + type_debug(t),
        ConfigIssue::XColumnNotNumeric(c, t) => "X column '"@ + c + "' must be numeric, found "@ + type_debug(t),
    }
}

impl ConfigValidationError {
    /// The message shown for the problem.
    pub fn message(&self) -> (r: String)
        ensures
            r@ == config_issue_text(self.issue()),
    {
        match self {
            ConfigValidationError::YColumnsRequired => String::from_str("At least one Y column is required"),
            ConfigValidationError::YColumnNotFound { column } => joined3("Y column '", column.as_str(), "' not found in data"),
            ConfigValidationError::XColumnNotFound { column } => joined3("X column '", column.as_str(), "' not found in data"),
            ConfigValidationError::ColorColumnNotFound { column } => joined3("Color column '", column.as_str(), "' not found in data"),
            ConfigValidationError::SizeColumnNotFound { column } => joined3("Size column '", column.as_str(), "' not found in data"),
            ConfigValidationError::CategoryColumnNotFound { column } => joined3("Category column '", column.as_str(), "' not found in data"),
            ConfigValidationError::YColumnNotNumeric { column, found } => {
                let mut m = joined3("Y column '", column.as_str(), "' must be numeric, found ");
                let d = found.debug_text();
                m.append(d.as_str());
                m
            },
            ConfigValidationError::XColumnNotNumericOrTemporal { column, found } => {
                let mut m = joined3("X column '", column.as_str(), "' must be numeric or temporal for line charts, found ");
                let d = found.debug_text();
                m.append(d.as_str());
                m
            },
            ConfigValidationError::XColumnNotNumericForScatter { column, found } => {
                let mut m = joined3("X column '", column.as_str(), "' must be numeric for scatter plots, found ");
                let d = found.debug_text();
                m.append(d.as_str());
                m
            },
            ConfigValidationError::XColumnNotNumericOrCategorical { column, found } => {
                let mut m = joined3("X column '", column.as_str(), "' must be numeric or categorical for bar charts, found ");
                let d = found.debug_text();
                m.append(d.as_str());
                m
            },
            ConfigValidationError::XColumnNotNumeric { column, found } => {
                let mut m = joined3("X column '", column.as_str(), "' must be numeric, found ");
                let d = found.debug_text();
                m.append(d.as_str());
                m
            },
        }
    }
}

/// The contents of a list of problems.
pub open spec fn issues(v: Seq<ConfigValidationError>) -> Seq<ConfigIssue> {
    v.map_values(|e: ConfigValidationError| e.issue())
}

/// Numeric column types, as configuration validation counts them.
pub open spec fn config_numeric(t: DataType) -> bool {
    match t {
        DataType::Int8 | DataType::Int16 | DataType::Int32 | DataType::Int64 | DataType::UInt8
        | DataType::UInt16 | DataType::UInt32 | DataType::UInt64 | DataType::Float32
        | DataType::Float64 => true,
        _ => false,
    }
}

/// Temporal column types, as configuration validation counts them.
pub open spec fn config_temporal(t: DataType) -> bool {
    match t {
        DataType::Date32 | DataType::Date64 | DataType::Time32(_) | DataType::Time64(_)
        | DataType::Timestamp(_, _) => true,
        _ => false,
    }
}

/// Dates, times and timestamps of every unit and time zone are temporal for
/// configuration validation; numbers and text are not. The numbers it
/// counts are the integer and the 32- and 64-bit floating-point types.
pub proof fn law_config_temporal_types(t: DataType)
    ensures
        (t is Date32 || t is Date64 || t is Time32 || t is Time64 || t is Timestamp)
            ==> config_temporal(t),
        config_numeric(t) || t.categorical() ==> !config_temporal(t),
        config_numeric(t) <==> (t is Int8 || t is Int16 || t is Int32 || t is Int64 || t is UInt8
            || t is UInt16 || t is UInt32 || t is UInt64 || t is Float32 || t is Float64),
{
}

/// A line chart or time analysis whose X column holds dates, times,
/// timestamps or integer and floating-point numbers gets no complaint about
/// its X column's type.
pub proof fn law_line_x_accepts_time_and_numbers(
    kind: PlotSpecificKind,
    c: String,
    types: Seq<(String, DataType)>,
    t: DataType,
)
    requires
        kind == PlotSpecificKind::LineChart || kind == PlotSpecificKind::TimeAnalysis,
        lookup_type(types, c@) == Some(t),
        t is Date32 || t is Date64 || t is Time32 || t is Time64 || t is Timestamp || t is Int8
            || t is Int16 || t is Int32 || t is Int64 || t is UInt8 || t is UInt16 || t is UInt32
            || t is UInt64 || t is Float32 || t is Float64,
    ensures
        x_type_issues(kind, Some(c), types).len() == 0,
{
}

fn is_numeric_type(dtype: &DataType) -> (r: bool)
    ensures
        r == config_numeric(*dtype),
{
    match dtype {
        DataType::Int8 | DataType::Int16 | DataType::Int32 | DataType::Int64 | DataType::UInt8
        | DataType::UInt16 | DataType::UInt32 | DataType::UInt64 | DataType::Float32
        | DataType::Float64 => true,
        _ => false,
    }
}

fn is_categorical_type(dtype: &DataType) -> (r: bool)
    ensures
        r == dtype.categorical(),
{
    match dtype {
        DataType::Utf8 | DataType::LargeUtf8 => true,
        _ => false,
    }
}

fn is_temporal_type(dtype: &DataType) -> (r: bool)
    ensures
        r == config_temporal(*dtype),
{
    match dtype {
        DataType::Date32 | DataType::Date64 | DataType::Time32(_) | DataType::Time64(_)
        | DataType::Timestamp(_, _) => true,
        _ => false,
    }
}

/// The names of a list of (name, type) entries.
pub open spec fn type_keys(types: Seq<(String, DataType)>) -> Seq<String> {
    types.map_values(|p: (String, DataType)| p.0)
}

/// The type recorded for `name`: that of its first entry.
pub open spec fn lookup_type(types: Seq<(String, DataType)>, name: Seq<char>) -> Option<DataType> {
    match position(type_keys(types), name) {
        Some(i) => Some(types[i].1),
        None => None,
    }
}

/// The type recorded for `name` in `types`, if any.
pub fn find_type<'a>(types: &'a Vec<(String, DataType)>, name: &str) -> (r: Option<&'a DataType>)
    ensures
        match r {
            Some(t) => lookup_type(types@, name@) == Some(*t),
            None => lookup_type(types@, name@) is None,
        },
{
    let ghost keys = type_keys(types@);
    let mut i: usize = 0;
    while i < types.len()
        invariant
            i <= types.len(),
            keys == type_keys(types@),
            forall|j: int| 0 <= j < i ==> (#[trigger] keys[j])@ != name@,
        decreases types.len() - i,
    {
        if str_eq(types[i].0.as_str(), name) {
            proof {
                assert(first_at(keys, name@, i as int));
                let c = choose|c: int| first_at(keys, name@, c);
                lemma_first_at_unique(keys, name@, i as int, c);
            }
            return Some(&types[i].1);
        }
        i = i + 1;
    }
    proof {
        lemma_position_some(keys, name@);
    }
    None
}

/// A "not found" problem for each Y column that is not in the data, in order.
pub open spec fn missing_y_issues(ys: Seq<String>, available: Seq<String>) -> Seq<ConfigIssue>
    decreases ys.len(),
{
    if ys.len() == 0 {
        seq![]
    } else {
        let prev = missing_y_issues(ys.drop_last(), available);
        if has_name(available, ys.last()@) {
            prev
        } else {
            prev.push(ConfigIssue::YColumnNotFound(ys.last()@))
        }
    }
}

/// A "not numeric" problem for each Y column whose recorded type is not
/// numeric, in order.
pub open spec fn non_numeric_y_issues(ys: Seq<String>, types: Seq<(String, DataType)>) -> Seq<
    ConfigIssue,
>
    decreases ys.len(),
{
    if ys.len() == 0 {
        seq![]
    } else {
        let prev = non_numeric_y_issues(ys.drop_last(), types);
        match lookup_type(types, ys.last()@) {
            Some(t) => if config_numeric(t) {
                prev
            } else {
                prev.push(ConfigIssue::YColumnNotNumeric(ys.last()@, t))
            },
            None => prev,
        }
    }
}

/// A "not found" problem for an optional column that is chosen but missing.
pub open spec fn missing_optional(
    col: Option<String>,
    available: Seq<String>,
    mk: spec_fn(Seq<char>) -> ConfigIssue,
) -> Seq<ConfigIssue> {
    match col {
        Some(c) => if has_name(available, c@) {
            seq![]
        } else {
            seq![mk(c@)]
        },
        None => seq![],
    }
}

/// The problem with the X column's recorded type, for the configured plot.
pub open spec fn x_type_issues(
    kind: PlotSpecificKind,
    x: Option<String>,
    types: Seq<(String, DataType)>,
) -> Seq<ConfigIssue> {
    match x {
        Some(c) => match lookup_type(types, c@) {
            Some(t) => match kind {
                PlotSpecificKind::LineChart | PlotSpecificKind::TimeAnalysis => if !config_numeric(t)
                    && !config_temporal(t) {
                    seq![ConfigIssue::XColumnNotNumericOrTemporal(c@, t)]
                } else {
                    seq![]
                },
                PlotSpecificKind::ScatterPlot | PlotSpecificKind::Scatter3D => if !config_numeric(t) {
                    seq![ConfigIssue::XColumnNotNumericForScatter(c@, t)]
                } else {
                    seq![]
                },
                PlotSpecificKind::BarChart => if !config_numeric(t) && !t.categorical() {
                    seq![ConfigIssue::XColumnNotNumericOrCategorical(c@, t)]
                } else {
                    seq![]
                },
                _ => if !config_numeric(t) {
                    seq![ConfigIssue::XColumnNotNumeric(c@, t)]
                } else {
                    seq![]
                },
            },
            None => seq![],
        },
        None => seq![],
    }
}

/// Every problem of a configuration against the available columns and their
/// types, in the order they are reported.
pub open spec fn config_issues(
    c: EnhancedPlotConfig,
    available: Seq<String>,
    types: Seq<(String, DataType)>,
) -> Seq<ConfigIssue> {
    let ys = c.y_columns@;
    (if ys.len() == 0 {
        seq![ConfigIssue::YColumnsRequired]
    } else {
        seq![]
    }) + missing_y_issues(ys, available) + missing_optional(
        c.x_column,
        available,
        |s: Seq<char>| ConfigIssue::XColumnNotFound(s),
    ) + missing_optional(
        c.color_column,
        available,
        |s: Seq<char>| ConfigIssue::ColorColumnNotFound(s),
    ) + missing_optional(c.size_column, available, |s: Seq<char>| ConfigIssue::SizeColumnNotFound(s))
        + missing_optional(
        c.category_column,
        available,
        |s: Seq<char>| ConfigIssue::CategoryColumnNotFound(s),
    ) + non_numeric_y_issues(ys, types) + x_type_issues(c.plot_specific, c.x_column, types)
}

/// Two configurations agree on everything but their validation outcome.
pub open spec fn same_settings(a: EnhancedPlotConfig, b: EnhancedPlotConfig) -> bool {
    &&& a.data_source_id == b.data_source_id
    &&& a.x_column == b.x_column
    &&& a.y_columns == b.y_columns
    &&& a.color_column == b.color_column
    &&& a.size_column == b.size_column
    &&& a.category_column == b.category_column
    &&& a.title == b.title
    &&& a.x_label == b.x_label
    &&& a.y_label == b.y_label
    &&& a.color_scheme == b.color_scheme
    &&& a.show_legend == b.show_legend
    &&& a.show_grid == b.show_grid
    &&& a.show_axes_labels == b.show_axes_labels
    &&& a.allow_zoom == b.allow_zoom
    &&& a.allow_pan == b.allow_pan
    &&& a.allow_selection == b.allow_selection
    &&& a.show_tooltips == b.show_tooltips
    &&& a.max_points == b.max_points
    &&& a.enable_caching == b.enable_caching
    &&& a.auto_sample == b.auto_sample
    &&& a.plot_specific == b.plot_specific
}

/// Validation reads only the settings: configurations with the same
/// settings get the same issues against the same columns, so validating
/// again gives the same verdict.
pub proof fn law_validation_reads_settings(
    a: EnhancedPlotConfig,
    b: EnhancedPlotConfig,
    available: Seq<String>,
    types: Seq<(String, DataType)>,
)
    requires
        same_settings(a, b),
    ensures
        config_issues(a, available, types) == config_issues(b, available, types),
{
}

/// The settings of a fresh configuration, for a plot of the given kind.
pub open spec fn fresh_config(c: EnhancedPlotConfig, kind: PlotSpecificKind) -> bool {
    &&& c.data_source_id is None
    &&& c.x_column is None
    &&& c.y_columns@.len() == 0
    &&& c.color_column is None
    &&& c.size_column is None
    &&& c.category_column is None
    &&& c.title@.len() == 0
    &&& c.x_label@.len() == 0
    &&& c.y_label@.len() == 0
    &&& c.color_scheme == ColorScheme::Viridis
    &&& c.show_legend
    &&& c.show_grid
    &&& c.show_axes_labels
    &&& c.allow_zoom
    &&& c.allow_pan
    &&& c.allow_selection
    &&& c.show_tooltips
    &&& c.max_points == 10000
    &&& c.enable_caching
    &&& c.auto_sample
    &&& c.plot_specific == kind
    &&& c.validation_errors@.len() == 0
    &&& !c.is_valid
}

impl Default for EnhancedPlotConfig {
    fn default() -> (r: Self)
        ensures
            fresh_config(r, PlotSpecificKind::Unspecified),
    {
        EnhancedPlotConfig {
            data_source_id: None,
            x_column: None,
            y_columns: Vec::new(),
            color_column: None,
            size_column: None,
            category_column: None,
            title: String::new(),
            x_label: String::new(),
            y_label: String::new(),
            color_scheme: ColorScheme::Viridis,
            show_legend: true,
            show_grid: true,
            show_axes_labels: true,
            allow_zoom: true,
            allow_pan: true,
            allow_selection: true,
            show_tooltips: true,
            max_points: 10000,
            enable_caching: true,
            auto_sample: true,
            plot_specific: PlotSpecificKind::Unspecified,
            validation_errors: Vec::new(),
            is_valid: false,
        }
    }
}

/// Appends the "not found" problem for an optional column.
fn push_missing_optional(
    errors: &mut Vec<ConfigValidationError>,
    col: &Option<String>,
    available: &Vec<String>,
    which: u8,
)
    requires
        which < 4,
    ensures
        issues(final(errors)@) == issues(old(errors)@) + missing_optional(
            *col,
            available@,
            if which == 0 {
                |s: Seq<char>| ConfigIssue::XColumnNotFound(s)
            } else if which == 1 {
                |s: Seq<char>| ConfigIssue::ColorColumnNotFound(s)
            } else if which == 2 {
                |s: Seq<char>| ConfigIssue::SizeColumnNotFound(s)
            } else {
                |s: Seq<char>| ConfigIssue::CategoryColumnNotFound(s)
            },
        ),
{
    match col {
        Some(c) => {
            if !contains_name(available, c.as_str()) {
                let column = c.clone();
                let e = if which == 0 {
                    ConfigValidationError::XColumnNotFound { column }
                } else if which == 1 {
                    ConfigValidationError::ColorColumnNotFound { column }
                } else if which == 2 {
                    ConfigValidationError::SizeColumnNotFound { column }
                } else {
                    ConfigValidationError::CategoryColumnNotFound { column }
                };
                errors.push(e);
                assert(issues(errors@) =~= issues(old(errors)@).push(e.issue()));
            } else {
                assert(issues(errors@) =~= issues(old(errors)@) + seq![]);
            }
        },
        None => {
            assert(issues(errors@) =~= issues(old(errors)@) + seq![]);
        },
    }
}

impl EnhancedPlotConfig {
    /// A fresh configuration for the plot type with the given name ("line",
    /// "scatter", "bar", ...); other names give a general configuration.
    pub fn new(plot_type: &str) -> (r: Self)
        ensures
            fresh_config(r, kind_for_name(plot_type@)),
    {
        let mut config = Self::default();
        config.plot_specific = kind_from_name(plot_type);
        config
    }

    /// Checks the configuration against the available columns and their
    /// types, records every problem found, and says whether there were none.
    #[verifier::spinoff_prover]
    #[verifier::rlimit(40)]
    pub fn validate(&mut self, available_columns: &Vec<String>, column_types: &Vec<(String, DataType)>) -> (r: bool)
        ensures
            same_settings(*final(self), *old(self)),
            issues(final(self).validation_errors@) == config_issues(
                *old(self),
                available_columns@,
                column_types@,
            ),
            final(self).is_valid == (final(self).validation_errors@.len() == 0),
            r == final(self).is_valid,
    {
        self.validation_errors.clear();
        if self.y_columns.len() == 0 {
            self.validation_errors.push(ConfigValidationError::YColumnsRequired);
        }
        let ghost start = issues(self.validation_errors@);
        assert(start =~= (if old(self).y_columns@.len() == 0 {
            seq![ConfigIssue::YColumnsRequired]
        } else {
            seq![]
        }));
        let mut i: usize = 0;
        while i < self.y_columns.len()
            invariant
                i <= self.y_columns.len(),
                same_settings(*self, *old(self)),
                issues(self.validation_errors@) == start + missing_y_issues(
                    self.y_columns@.take(i as int),
                    available_columns@,
                ),
            decreases self.y_columns.len() - i,
        {
            let ghost before = issues(self.validation_errors@);
            assert(self.y_columns@.take(i + 1).drop_last() =~= self.y_columns@.take(i as int));
            if !contains_name(available_columns, self.y_columns[i].as_str()) {
                let e = ConfigValidationError::YColumnNotFound { column: self.y_columns[i].clone() };
                self.validation_errors.push(e);
                assert(issues(self.validation_errors@) =~= before.push(e.issue()));
            }
            i = i + 1;
        }
        assert(self.y_columns@.take(self.y_columns.len() as int) =~= self.y_columns@);
        push_missing_optional(&mut self.validation_errors, &self.x_column, available_columns, 0);
        push_missing_optional(&mut self.validation_errors, &self.color_column, available_columns, 1);
        push_missing_optional(&mut self.validation_errors, &self.size_column, available_columns, 2);
        push_missing_optional(
            &mut self.validation_errors,
            &self.category_column,
            available_columns,
            3,
        );
        self.validate_column_types(column_types);
        self.is_valid = self.validation_errors.len() == 0;
        proof {
            let c = *old(self);
            let avail = available_columns@;
            assert(config_issues(c, avail, column_types@) =~= start + missing_y_issues(
                c.y_columns@,
                avail,
            ) + missing_optional(c.x_column, avail, |s: Seq<char>| ConfigIssue::XColumnNotFound(s))
                + missing_optional(
                c.color_column,
                avail,
                |s: Seq<char>| ConfigIssue::ColorColumnNotFound(s),
            ) + missing_optional(
                c.size_column,
                avail,
                |s: Seq<char>| ConfigIssue::SizeColumnNotFound(s),
            ) + missing_optional(
                c.category_column,
                avail,
                |s: Seq<char>| ConfigIssue::CategoryColumnNotFound(s),
            ) + non_numeric_y_issues(c.y_columns@, column_types@) + x_type_issues(
                c.plot_specific,
                c.x_column,
                column_types@,
            ));
        }
        self.is_valid
    }

    /// Records a problem for each Y column that is not numeric and for an X
    /// column whose type does not suit the configured plot.
    fn validate_column_types(&mut self, column_types: &Vec<(String, DataType)>)
        ensures
            same_settings(*final(self), *old(self)),
            issues(final(self).validation_errors@) == issues(old(self).validation_errors@)
                + non_numeric_y_issues(old(self).y_columns@, column_types@) + x_type_issues(
                old(self).plot_specific,
                old(self).x_column,
                column_types@,
            ),
            final(self).is_valid == old(self).is_valid,
    {
        let ghost start = issues(self.validation_errors@);
        let mut i: usize = 0;
        while i < self.y_columns.len()
            invariant
                i <= self.y_columns.len(),
                same_settings(*self, *old(self)),
                self.is_valid == old(self).is_valid,
                issues(self.validation_errors@) == start + non_numeric_y_issues(
                    self.y_columns@.take(i as int),
                    column_types@,
                ),
            decreases self.y_columns.len() - i,
        {
            let ghost before = issues(self.validation_errors@);
            assert(self.y_columns@.take(i + 1).drop_last() =~= self.y_columns@.take(i as int));
            match find_type(column_types, self.y_columns[i].as_str()) {
                Some(t) => {
                    if !is_numeric_type(t) {
                        let e = ConfigValidationError::YColumnNotNumeric {
                            column: self.y_columns[i].clone(),
                            found: t.copy_type(),
                        };
                        self.validation_errors.push(e);
                        assert(issues(self.validation_errors@) =~= before.push(e.issue()));
                    }
                },
                None => {},
            }
            i = i + 1;
        }
        assert(self.y_columns@.take(self.y_columns.len() as int) =~= self.y_columns@);
        let ghost mid = issues(self.validation_errors@);
        match &self.x_column {
            Some(x_col) => {
                match find_type(column_types, x_col.as_str()) {
                    Some(t) => {
                        let column = x_col.clone();
                        let found = t.copy_type();
                        let err = match self.plot_specific {
                            PlotSpecificKind::LineChart | PlotSpecificKind::TimeAnalysis => {
                                if !is_numeric_type(t) && !is_temporal_type(t) {
                                    Some(
                                        ConfigValidationError::XColumnNotNumericOrTemporal {
                                            column,
                                            found,
                                        },
                                    )
                                } else {
                                    None
                                }
                            },
                            PlotSpecificKind::ScatterPlot | PlotSpecificKind::Scatter3D => {
                                if !is_numeric_type(t) {
                                    Some(
                                        ConfigValidationError::XColumnNotNumericForScatter {
                                            column,
                                            found,
                                        },
                                    )
                                } else {
                                    None
                                }
                            },
                            PlotSpecificKind::BarChart => {
                                if !is_numeric_type(t) && !is_categorical_type(t) {
                                    Some(
                                        ConfigValidationError::XColumnNotNumericOrCategorical {
                                            column,
                                            found,
                                        },
                                    )
                                } else {
                                    None
                                }
                            },
                            _ => {
                                if !is_numeric_type(t) {
                                    Some(ConfigValidationError::XColumnNotNumeric { column, found })
                                } else {
                                    None
                                }
                            },
                        };
                        match err {
                            Some(e) => {
                                self.validation_errors.push(e);
                                assert(issues(self.validation_errors@) =~= mid + seq![e.issue()]);
                            },
                            None => {
                                assert(issues(self.validation_errors@) =~= mid + seq![]);
                            },
                        }
                    },
                    None => {
                        assert(issues(self.validation_errors@) =~= mid + seq![]);
                    },
                }
            },
            None => {
                assert(issues(self.validation_errors@) =~= mid + seq![]);
            },
        }
    }

    /// The problems found by the last validation.
    pub fn get_validation_errors(&self) -> (r: &[ConfigValidationError])
        ensures
            r@ == self.validation_errors@,
    {
        self.validation_errors.as_slice()
    }

    /// Whether the last validation found no problem.
    pub fn is_valid(&self) -> (r: bool)
        ensures
            r == self.is_valid,
    {
        self.is_valid
    }
}

} // verus!
