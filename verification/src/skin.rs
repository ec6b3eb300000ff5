//! The character skins of the sprite sheet, one row of the sheet each.

use crate::input::Key;
use vstd::prelude::*;

verus! {

/// A character skin.
#[derive(Clone, Copy, Debug, PartialEq, Eq, Structural)]
pub enum Skin {
    ElfF,
    ElfM,
    KnightF,
    KnightM,
    WizardF,
    WizardM,
    LizardF,
    LizardM,
}

impl Skin {
    /// The vertical offset of the skin's row in the sprite sheet.
    pub open spec fn row(self) -> int {
        match self {
            Skin::ElfF => 4,
            Skin::ElfM => 36,
            Skin::KnightF => 68,
            Skin::KnightM => 100,
            Skin::WizardF => 132,
            Skin::WizardM => 164,
            Skin::LizardF => 196,
            Skin::LizardM => 228,
        }
    }

    /// The name shown for the skin.
    pub open spec fn label(self) -> Seq<char> {
        match self {
            Skin::ElfF => "Elf (F)"@,
            Skin::ElfM => "Elf (M)"@,
            Skin::KnightF => "Knight (F)"@,
            Skin::KnightM => "Knight (M)"@,
            Skin::WizardF => "Wizard (F)"@,
            Skin::WizardM => "Wizard (M)"@,
            Skin::LizardF => "Lizard (F)"@,
            Skin::LizardM => "Lizard (M)"@,
        }
    }

    /// The skin that a number key selects.
    pub open spec fn selected_by(key: Key) -> Option<Skin> {
        match key {
            Key::Num1 => Some(Skin::ElfF),
            Key::Num2 => Some(Skin::ElfM),
            Key::Num3 => Some(Skin::KnightF),
            Key::Num4 => Some(Skin::KnightM),
            Key::Num5 => Some(Skin::WizardF),
            Key::Num6 => Some(Skin::WizardM),
            Key::Num7 => Some(Skin::LizardF),
            Key::Num8 => Some(Skin::LizardM),
            _ => None,
        }
    }

    /// The vertical offset of the skin's row in the sprite sheet.
    pub fn row_y(&self) -> (r: i32)
        ensures
            r == self.row(),
    {
        match self {
            Skin::ElfF => 4,
            Skin::ElfM => 36,
            Skin::KnightF => 68,
            Skin::KnightM => 100,
            Skin::WizardF => 132,
            Skin::WizardM => 164,
            Skin::LizardF => 196,
            Skin::LizardM => 228,
        }
    }

    /// The name shown for the skin.
    pub fn name(&self) -> (r: &'static str)
        ensures
            r@ == self.label(),
    {
        match self {
            Skin::ElfF => "Elf (F)",
            Skin::ElfM => "Elf (M)",
            Skin::KnightF => "Knight (F)",
            Skin::KnightM => "Knight (M)",
            Skin::WizardF => "Wizard (F)",
            Skin::WizardM => "Wizard (M)",
            Skin::LizardF => "Lizard (F)",
            Skin::LizardM => "Lizard (M)",
        }
    }

    /// The skin that `key` selects: the keys 1 to 8 select one each, no other
    /// key selects any.
    pub fn for_key(key: Key) -> (r: Option<Skin>)
        ensures
            r == Skin::selected_by(key),
    {
        match key {
            Key::Num1 => Some(Skin::ElfF),
            Key::Num2 => Some(Skin::ElfM),
            Key::Num3 => Some(Skin::KnightF),
            Key::Num4 => Some(Skin::KnightM),
            Key::Num5 => Some(Skin::WizardF),
            Key::Num6 => Some(Skin::WizardM),
            Key::Num7 => Some(Skin::LizardF),
            Key::Num8 => Some(Skin::LizardM),
            _ => None,
        }
    }
}

} // verus!
