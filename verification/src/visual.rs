//! What is derived from a charge: the size of its ball and the label on it.

use vstd::prelude::*;
use crate::charge::{lemma_level_below_digits, Charge, ChargeView};
use crate::natural::{decimal_string, lemma_decimal_string_bounds};

verus! {

/// The radius of a charge ball, in units, for each level of its charge.
pub const BULLET_RADIUS_FACTOR: u128 = 5;

/// The width of one glyph as a fraction of the font size:
/// `BULLET_TEXT_ASPECT_NUMERATOR` over `BULLET_TEXT_ASPECT_DENOMINATOR`.
pub const BULLET_TEXT_ASPECT_NUMERATOR: u128 = 1;

pub const BULLET_TEXT_ASPECT_DENOMINATOR: u128 = 2;

/// A font size as mathematics sees it: `numerator` over `denominator`
/// units.
pub struct FontSizeView {
    pub numerator: nat,
    pub denominator: nat,
}

/// A font size: `numerator` over `denominator` units. The fraction is
/// kept as it was computed and is not reduced.
#[derive(Clone, Copy, Debug, PartialEq, Eq, Structural)]
pub struct FontSize {
    pub numerator: u128,
    pub denominator: u128,
}

impl View for FontSize {
    type V = FontSizeView;

    open spec fn view(&self) -> FontSizeView {
        FontSizeView { numerator: self.numerator as nat, denominator: self.denominator as nat }
    }
}

/// The radius of the charge ball of a charge of level `level`. The ball on
/// screen and the ball that collides both have this radius.
pub open spec fn ball_radius(level: nat) -> nat {
    level * BULLET_RADIUS_FACTOR as nat
}

/// The diameter of the charge ball of a charge of level `level`.
pub open spec fn ball_diameter(level: nat) -> nat {
    ball_radius(level) * 2
}

/// Whether a numeral of `digit_count` digits, set at a font size equal to
/// `diameter`, is wider than `diameter`.
pub open spec fn overflows_at_full_size(diameter: nat, digit_count: nat) -> bool {
    diameter * BULLET_TEXT_ASPECT_DENOMINATOR < diameter * BULLET_TEXT_ASPECT_NUMERATOR
        * digit_count
}

/// The font size of a label of `digit_count` digits on a ball of diameter
/// `diameter`: the diameter itself where the numeral fits at that size, and
/// else the diameter divided by the digit count and by the aspect.
pub open spec fn fitted_font_size(diameter: nat, digit_count: nat) -> FontSizeView {
    if overflows_at_full_size(diameter, digit_count) {
        FontSizeView {
            numerator: diameter * BULLET_TEXT_ASPECT_DENOMINATOR as nat,
            denominator: digit_count * BULLET_TEXT_ASPECT_NUMERATOR as nat,
        }
    } else {
        FontSizeView { numerator: diameter, denominator: 1 }
    }
}

/// Whether a numeral of `digit_count` digits, set at the font size `size`,
/// is no wider than `diameter`. Its width is the font size times the
/// aspect times the digit count.
pub open spec fn text_fits(size: FontSizeView, digit_count: nat, diameter: nat) -> bool {
    size.numerator * BULLET_TEXT_ASPECT_NUMERATOR * digit_count <= diameter * (size.denominator
        * BULLET_TEXT_ASPECT_DENOMINATOR)
}

/// The fitted font size never makes the label wider than the ball, and it
/// is a true fraction, whatever the diameter and the digit count are.
pub proof fn lemma_fitted_font_size_fits(diameter: nat, digit_count: nat)
    requires
        digit_count >= 1,
    ensures
        fitted_font_size(diameter, digit_count).denominator >= 1,
        text_fits(fitted_font_size(diameter, digit_count), digit_count, diameter),
{
    let size = fitted_font_size(diameter, digit_count);
    let up = BULLET_TEXT_ASPECT_NUMERATOR as nat;
    let down = BULLET_TEXT_ASPECT_DENOMINATOR as nat;
    if overflows_at_full_size(diameter, digit_count) {
        assert((diameter * down) * up * digit_count == diameter * ((digit_count * up) * down))
            by (nonlinear_arith);
    } else {
        assert(diameter * up * digit_count <= diameter * (1 * down)) by (nonlinear_arith)
            requires
                !(diameter * down < diameter * up * digit_count),
        ;
    }
}

/// What a label is, as mathematics sees it.
pub struct LabelView {
    pub text: Seq<char>,
    pub font_size: FontSizeView,
}

/// The text on a charge ball and the size it is set in.
#[derive(Debug)]
pub struct Label {
    pub value: String,
    pub font_size: FontSize,
}

impl View for Label {
    type V = LabelView;

    open spec fn view(&self) -> LabelView {
        LabelView { text: self.value@, font_size: self.font_size@ }
    }
}

/// The label that shows `charge`: the decimal numeral of its value, fitted
/// to the diameter of its ball.
pub open spec fn label_of(charge: ChargeView) -> LabelView {
    LabelView {
        text: decimal_string(charge.value),
        font_size: fitted_font_size(
            ball_diameter(charge.level),
            decimal_string(charge.value).len(),
        ),
    }
}

/// The label of a charge is never wider than the ball it sits on, however
/// many digits the value has.
pub proof fn lemma_label_fits(charge: ChargeView)
    ensures
        label_of(charge).text.len() >= 1,
        label_of(charge).font_size.denominator >= 1,
        text_fits(
            label_of(charge).font_size,
            label_of(charge).text.len(),
            ball_diameter(charge.level),
        ),
{
    lemma_decimal_string_bounds(charge.value);
    lemma_fitted_font_size_fits(ball_diameter(charge.level), decimal_string(charge.value).len());
}

/// The derived state of a charge holds one and the same radius for the
/// ball on screen and for the ball that collides, and so does the derived
/// state of a holder that has just been spawned.
pub proof fn lemma_scales_agree(charge: ChargeView)
    ensures
        ChargeVisualView::of(charge).scales_agree(),
        ChargeVisualView::of(charge).ball_scale == ball_radius(charge.level),
        ChargeVisualView::spawned().scales_agree(),
{
}

/// The level of `charge`. It is at most four times the number of digits of
/// the value, which are held in memory: that leaves room in a machine
/// number for the radius, the diameter and the font size.
fn bounded_level(charge: &Charge) -> (level: u128)
    ensures
        level == charge@.level,
        1 <= level <= 4 * usize::MAX,
{
    let digits: usize = charge.value().digit_count();
    assert(charge@.level <= 4 * digits) by {
        lemma_level_below_digits(charge@);
    }
    charge.level()
}

/// The radius of the charge ball of `charge`, for the ball on screen and
/// for the ball that collides alike.
pub fn charge_ball_scale(charge: &Charge) -> (scale: u128)
    ensures
        scale == ball_radius(charge@.level),
{
    bounded_level(charge) * BULLET_RADIUS_FACTOR
}

/// The label that shows `charge`.
pub fn charge_label(charge: &Charge) -> (label: Label)
    ensures
        label@ == label_of(charge@),
{
    let value = charge.value().to_string();
    let digits: u128 = charge.value().digit_count() as u128;
    let diameter: u128 = bounded_level(charge) * BULLET_RADIUS_FACTOR * 2;
    assert(overflows_at_full_size(diameter as nat, digits as nat) == (
    BULLET_TEXT_ASPECT_DENOMINATOR < BULLET_TEXT_ASPECT_NUMERATOR * digits)) by (nonlinear_arith)
        requires
            diameter > 0,
            overflows_at_full_size(diameter as nat, digits as nat) == (diameter
                * BULLET_TEXT_ASPECT_DENOMINATOR < diameter * BULLET_TEXT_ASPECT_NUMERATOR
                * digits),
    ;
    let font_size = if BULLET_TEXT_ASPECT_DENOMINATOR < BULLET_TEXT_ASPECT_NUMERATOR * digits {
        FontSize {
            numerator: diameter * BULLET_TEXT_ASPECT_DENOMINATOR,
            denominator: digits * BULLET_TEXT_ASPECT_NUMERATOR,
        }
    } else {
        FontSize { numerator: diameter, denominator: 1 }
    };
    Label { value, font_size }
}

/// What the derived state of a charge is, as mathematics sees it.
pub struct ChargeVisualView {
    /// The text on the charge ball.
    pub label: LabelView,
    /// The scale of the shape that collides.
    pub collider_scale: nat,
    /// The scale of the ball on screen.
    pub ball_scale: nat,
}

impl ChargeVisualView {
    /// The derived state of a holder that has just been spawned and not
    /// been brought up to date yet: an empty label and a ball of radius one.
    pub open spec fn spawned() -> ChargeVisualView {
        ChargeVisualView {
            label: LabelView {
                text: Seq::empty(),
                font_size: FontSizeView { numerator: BULLET_RADIUS_FACTOR as nat, denominator: 1 },
            },
            collider_scale: 1,
            ball_scale: 1,
        }
    }

    /// The same balls under the label `label`.
    pub open spec fn with_label(self, label: LabelView) -> ChargeVisualView {
        ChargeVisualView { label, ..self }
    }

    /// The same label on balls of radius `scale`.
    pub open spec fn with_scale(self, scale: nat) -> ChargeVisualView {
        ChargeVisualView { collider_scale: scale, ball_scale: scale, ..self }
    }

    /// The ball on screen is the ball that collides.
    pub open spec fn scales_agree(self) -> bool {
        self.collider_scale == self.ball_scale
    }

    /// The derived state of `charge`: its label, and both balls at its
    /// radius.
    pub open spec fn of(charge: ChargeView) -> ChargeVisualView {
        ChargeVisualView {
            label: label_of(charge),
            collider_scale: ball_radius(charge.level),
            ball_scale: ball_radius(charge.level),
        }
    }

    /// The label and both balls are those of `charge`.
    pub open spec fn shows(self, charge: ChargeView) -> bool {
        self == ChargeVisualView::of(charge)
    }
}

/// The size of a charge ball, held once for the shape that collides and
/// once for the ball on screen.
#[derive(Clone, Copy, Debug)]
struct BallScale {
    collider: u128,
    ball: u128,
}

impl BallScale {
    /// Both balls at the radius `scale`.
    fn uniform(scale: u128) -> (scales: BallScale)
        ensures
            scales.collider == scale,
            scales.ball == scale,
    {
        BallScale { collider: scale, ball: scale }
    }
}

/// The state that is derived from a charge: the label on the charge ball,
/// and the size of the ball, once for the screen and once for collisions.
#[derive(Debug)]
pub struct ChargeVisual {
    label: Label,
    scale: BallScale,
}

impl View for ChargeVisual {
    type V = ChargeVisualView;

    closed spec fn view(&self) -> ChargeVisualView {
        ChargeVisualView {
            label: self.label@,
            collider_scale: self.scale.collider as nat,
            ball_scale: self.scale.ball as nat,
        }
    }
}

impl ChargeVisual {
    /// The ball on screen is always the ball that collides.
    #[verifier::type_invariant]
    pub open spec fn scales_agree(&self) -> bool {
        self@.scales_agree()
    }

    /// The derived state of a holder that has just been spawned.
    pub fn new() -> (visual: ChargeVisual)
        ensures
            visual@ == ChargeVisualView::spawned(),
    {
        let scale = BallScale::uniform(1);
        ChargeVisual {
            label: Label {
                value: String::new(),
                font_size: FontSize { numerator: BULLET_RADIUS_FACTOR, denominator: 1 },
            },
            scale,
        }
    }

    /// The derived state that shows `charge`.
    pub fn showing(charge: &Charge) -> (visual: ChargeVisual)
        ensures
            visual@.shows(charge@),
    {
        let scale = BallScale::uniform(charge_ball_scale(charge));
        ChargeVisual { label: charge_label(charge), scale }
    }

    /// Brings the label up to date with `charge`.
    pub fn update_charge_text(&mut self, charge: &Charge)
        ensures
            final(self)@ == old(self)@.with_label(label_of(charge@)),
    {
        proof {
            use_type_invariant(&*self);
        }
        self.label = charge_label(charge);
    }

    /// Brings both balls up to date with `charge`.
    pub fn update_charge_ball(&mut self, charge: &Charge)
        ensures
            final(self)@ == old(self)@.with_scale(ball_radius(charge@.level)),
    {
        let scale = BallScale::uniform(charge_ball_scale(charge));
        self.scale = scale;
    }

    /// The text on the charge ball.
    pub fn label(&self) -> (label: &Label)
        ensures
            label@ == self@.label,
    {
        &self.label
    }

    /// The scale of the shape that collides.
    pub fn collider_scale(&self) -> (scale: u128)
        ensures
            scale == self@.collider_scale,
            self@.scales_agree(),
    {
        proof {
            use_type_invariant(self);
        }
        self.scale.collider
    }

    /// The scale of the ball on screen.
    pub fn ball_scale(&self) -> (scale: u128)
        ensures
            scale == self@.ball_scale,
            self@.scales_agree(),
    {
        proof {
            use_type_invariant(self);
        }
        self.scale.ball
    }
}

} // verus!
