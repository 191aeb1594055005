//! The hard-tune effect of a preset: its settings, their limits, and the
//! values that each style brings.

use vstd::prelude::*;

verus! {

/// How strongly the effect corrects.
#[derive(Clone, Copy, Debug, PartialEq, Eq, Structural)]
pub enum HardTuneStyle {
    /// The mildest style, and the default.
    Normal,
    /// Between the two others.
    Medium,
    /// The strongest style.
    Hard,
}

impl Default for HardTuneStyle {
    fn default() -> (style: Self)
        ensures
            style == HardTuneStyle::Normal,
    {
        HardTuneStyle::Normal
    }
}

impl HardTuneStyle {
    /// The index under which a profile stores the style.
    pub open spec fn spec_ui_index(&self) -> u8 {
        match *self {
            HardTuneStyle::Normal => 0,
            HardTuneStyle::Medium => 1,
            HardTuneStyle::Hard => 2,
        }
    }

    /// The index under which a profile stores the style.
    #[verifier::when_used_as_spec(spec_ui_index)]
    pub fn ui_index(&self) -> (index: u8)
        ensures
            index == self.spec_ui_index(),
    {
        match *self {
            HardTuneStyle::Normal => 0,
            HardTuneStyle::Medium => 1,
            HardTuneStyle::Hard => 2,
        }
    }

    /// The style that a profile stores under `index`, if there is one.
    pub fn from_ui_index(index: u8) -> (style: Option<HardTuneStyle>)
        ensures
            style matches Some(s) ==> s.spec_ui_index() == index,
            style is None ==> index > 2,
    {
        if index == 0 {
            Some(HardTuneStyle::Normal)
        } else if index == 1 {
            Some(HardTuneStyle::Medium)
        } else if index == 2 {
            Some(HardTuneStyle::Hard)
        } else {
            None
        }
    }
}

/// The input that the effect follows.
#[derive(Clone, Copy, Debug, PartialEq, Eq, Structural)]
pub enum HardTuneSource {
    /// Every input, and the default.
    All,
    /// The music channel.
    Music,
    /// The game channel.
    Game,
    /// The line input.
    LineIn,
    /// The system channel.
    System,
}

impl Default for HardTuneSource {
    fn default() -> (source: Self)
        ensures
            source == HardTuneSource::All,
    {
        HardTuneSource::All
    }
}

impl HardTuneSource {
    /// The name under which a profile stores the source.
    pub fn name(&self) -> (name: &'static str)
        ensures
            name@ == (match *self {
                HardTuneSource::All => "ALL"@,
                HardTuneSource::Music => "MUSIC"@,
                HardTuneSource::Game => "GAME"@,
                HardTuneSource::LineIn => "LINEIN"@,
                HardTuneSource::System => "SYSTEM"@,
            }),
    {
        match *self {
            HardTuneSource::All => "ALL",
            HardTuneSource::Music => "MUSIC",
            HardTuneSource::Game => "GAME",
            HardTuneSource::LineIn => "LINEIN",
            HardTuneSource::System => "SYSTEM",
        }
    }
}

/// Why a setting was refused.
#[derive(Clone, Copy, Debug, PartialEq, Eq, Structural)]
pub enum HardTuneError {
    /// The amount is a percentage: at most 100.
    AmountOutOfRange,
    /// The window lies between 0 and 600.
    WindowOutOfRange,
    /// The rate is a percentage: at most 100.
    RateOutOfRange,
    /// The pitch amount can only be 0.
    PitchAmtNotZero,
}

impl HardTuneError {
    /// The refusal in words.
    pub fn message(&self) -> (text: &'static str)
        ensures
            text@ == (match *self {
                HardTuneError::AmountOutOfRange => "Amount should be a percentage"@,
                HardTuneError::WindowOutOfRange => "Window should be between 0 and 600"@,
                HardTuneError::RateOutOfRange => "Rate should be a percentage"@,
                HardTuneError::PitchAmtNotZero => "Hardtune Pitch Amt should be 0.."@,
            }),
    {
        match *self {
            HardTuneError::AmountOutOfRange => "Amount should be a percentage",
            HardTuneError::WindowOutOfRange => "Window should be between 0 and 600",
            HardTuneError::RateOutOfRange => "Rate should be a percentage",
            HardTuneError::PitchAmtNotZero => "Hardtune Pitch Amt should be 0..",
        }
    }
}

/// Largest amount and largest rate: both are percentages.
pub const MAX_PERCENT: u8 = 100;

/// Largest window.
pub const MAX_WINDOW: u16 = 600;

/// The values that a style brings with it.
#[derive(Clone, Copy, Debug, PartialEq, Eq, Structural)]
pub struct HardtunePreset {
    /// Amount, a percentage.
    pub amount: u8,
    /// Window.
    pub window: u16,
    /// Rate, a percentage.
    pub rate: u8,
    /// Scale.
    pub scale: u8,
    /// Pitch amount.
    pub pitch_amt: u8,
}

impl HardtunePreset {
    /// The values of `style`.
    pub open spec fn spec_get_preset(style: HardTuneStyle) -> HardtunePreset {
        match style {
            HardTuneStyle::Normal => HardtunePreset {
                amount: 70,
                window: 20,
                rate: 20,
                scale: 5,
                pitch_amt: 0,
            },
            HardTuneStyle::Medium => HardtunePreset {
                amount: 53,
                window: 20,
                rate: 99,
                scale: 5,
                pitch_amt: 0,
            },
            HardTuneStyle::Hard => HardtunePreset {
                amount: 100,
                window: 60,
                rate: 100,
                scale: 5,
                pitch_amt: 0,
            },
        }
    }

    /// Whether every value is one that the setters accept.
    pub open spec fn within_limits(self) -> bool {
        &&& self.amount <= MAX_PERCENT
        &&& self.window <= MAX_WINDOW
        &&& self.rate <= MAX_PERCENT
        &&& self.pitch_amt == 0
    }

    /// The values of `style`. Each of them is one that the setters accept.
    #[verifier::when_used_as_spec(spec_get_preset)]
    pub fn get_preset(style: HardTuneStyle) -> (preset: HardtunePreset)
        ensures
            preset == HardtunePreset::spec_get_preset(style),
            preset.within_limits(),
    {
        match style {
            HardTuneStyle::Normal => HardtunePreset {
                amount: 70,
                window: 20,
                rate: 20,
                scale: 5,
                pitch_amt: 0,
            },
            HardTuneStyle::Medium => HardtunePreset {
                amount: 53,
                window: 20,
                rate: 99,
                scale: 5,
                pitch_amt: 0,
            },
            HardTuneStyle::Hard => HardtunePreset {
                amount: 100,
                window: 60,
                rate: 100,
                scale: 5,
                pitch_amt: 0,
            },
        }
    }
}

/// The settings of one hard-tune effect, as plain values.
pub struct HardTuneEffectView {
    /// Whether the effect is on when its preset is loaded.
    pub state: bool,
    /// The style.
    pub style: HardTuneStyle,
    /// The key source.
    pub key_source: u8,
    /// Amount, a percentage.
    pub amount: u8,
    /// Window.
    pub window: u16,
    /// Rate, a percentage.
    pub rate: u8,
    /// Scale.
    pub scale: u8,
    /// Pitch amount.
    pub pitch_amt: u8,
    /// The source, where one was chosen.
    pub source: Option<HardTuneSource>,
}

impl HardTuneEffectView {
    /// The limits that every effect keeps: amount and rate are percentages,
    /// the window is at most 600 and the pitch amount is 0.
    pub open spec fn within_limits(self) -> bool {
        &&& self.amount <= MAX_PERCENT
        &&& self.window <= MAX_WINDOW
        &&& self.rate <= MAX_PERCENT
        &&& self.pitch_amt == 0
    }

    /// The settings as they come new: off, the default style, every number
    /// 0 and no source.
    pub open spec fn initial() -> HardTuneEffectView {
        HardTuneEffectView {
            state: false,
            style: HardTuneStyle::Normal,
            key_source: 0,
            amount: 0,
            window: 0,
            rate: 0,
            scale: 0,
            pitch_amt: 0,
            source: None,
        }
    }

    /// The settings after `style` was chosen: the style and the five values
    /// that it brings; the rest as before.
    pub open spec fn styled(self, style: HardTuneStyle) -> HardTuneEffectView {
        let preset = HardtunePreset::spec_get_preset(style);
        HardTuneEffectView {
            state: self.state,
            style,
            key_source: self.key_source,
            amount: preset.amount,
            window: preset.window,
            rate: preset.rate,
            scale: preset.scale,
            pitch_amt: preset.pitch_amt,
            source: self.source,
        }
    }
}

/// One hard-tune effect.
#[derive(Debug)]
pub struct HardTuneEffect {
    state: bool,
    style: HardTuneStyle,
    key_source: u8,
    amount: u8,
    window: u16,
    rate: u8,
    scale: u8,
    pitch_amt: u8,
    source: Option<HardTuneSource>,
}

impl Default for HardTuneEffect {
    fn default() -> (effect: Self)
        ensures
            effect@ == HardTuneEffectView::initial(),
    {
        HardTuneEffect::new()
    }
}

impl HardTuneEffect {
    /// The settings as plain values.
    pub closed spec fn view(&self) -> HardTuneEffectView {
        HardTuneEffectView {
            state: self.state,
            style: self.style,
            key_source: self.key_source,
            amount: self.amount,
            window: self.window,
            rate: self.rate,
            scale: self.scale,
            pitch_amt: self.pitch_amt,
            source: self.source,
        }
    }

    #[verifier::type_invariant]
    spec fn keeps_limits(&self) -> bool {
        self@.within_limits()
    }

    /// A new effect: off, the default style, every number 0 and no source.
    pub fn new() -> (effect: Self)
        ensures
            effect@ == HardTuneEffectView::initial(),
    {
        Self {
            state: false,
            style: HardTuneStyle::Normal,
            key_source: 0,
            amount: 0,
            window: 0,
            rate: 0,
            scale: 0,
            pitch_amt: 0,
            source: None,
        }
    }

    /// Whether the effect is on when its preset is loaded.
    pub fn state(&self) -> (state: bool)
        ensures
            state == self@.state,
    {
        self.state
    }

    /// Switches the effect on or off. Nothing else changes.
    pub fn set_state(&mut self, state: bool)
        ensures
            final(self)@ == (HardTuneEffectView { state, ..old(self)@ }),
    {
        proof {
            use_type_invariant(&*self);
        }
        self.state = state;
    }

    /// The style.
    pub fn style(&self) -> (style: &HardTuneStyle)
        ensures
            *style == self@.style,
    {
        &self.style
    }

    /// Chooses `style` and takes over the amount, window, rate, scale and
    /// pitch amount that it brings. The values of every style are within
    /// the limits, so this always succeeds.
    pub fn set_style(&mut self, style: HardTuneStyle) -> (out: Result<(), HardTuneError>)
        ensures
            out.is_ok(),
            final(self)@ == old(self)@.styled(style),
    {
        proof {
            use_type_invariant(&*self);
        }
        self.style = style;
        let preset = HardtunePreset::get_preset(style);
        match self.set_amount(preset.amount) {
            Err(e) => {
                return Err(e);
            },
            Ok(_) => {},
        }
        match self.set_window(preset.window) {
            Err(e) => {
                return Err(e);
            },
            Ok(_) => {},
        }
        match self.set_rate(preset.rate) {
            Err(e) => {
                return Err(e);
            },
            Ok(_) => {},
        }
        self.set_scale(preset.scale);
        match self.set_pitch_amt(preset.pitch_amt) {
            Err(e) => {
                return Err(e);
            },
            Ok(_) => {},
        }
        Ok(())
    }

    /// The key source.
    pub fn key_source(&self) -> (key_source: u8)
        ensures
            key_source == self@.key_source,
    {
        self.key_source
    }

    /// Amount, a percentage.
    pub fn amount(&self) -> (amount: u8)
        ensures
            amount == self@.amount,
            amount <= MAX_PERCENT,
    {
        proof {
            use_type_invariant(self);
        }
        self.amount
    }

    /// Sets the amount. More than 100 is refused and changes nothing.
    pub fn set_amount(&mut self, value: u8) -> (out: Result<(), HardTuneError>)
        ensures
            value <= MAX_PERCENT ==> out.is_ok() && final(self)@ == (HardTuneEffectView {
                amount: value,
                ..old(self)@
            }),
            value > MAX_PERCENT ==> out == Err::<(), HardTuneError>(
                HardTuneError::AmountOutOfRange,
            ) && final(self)@ == old(self)@,
    {
        if value > MAX_PERCENT {
            return Err(HardTuneError::AmountOutOfRange);
        }
        proof {
            use_type_invariant(&*self);
        }
        self.amount = value;
        Ok(())
    }

    /// Window.
    pub fn window(&self) -> (window: u16)
        ensures
            window == self@.window,
            window <= MAX_WINDOW,
    {
        proof {
            use_type_invariant(self);
        }
        self.window
    }

    /// Sets the window. More than 600 is refused and changes nothing.
    pub fn set_window(&mut self, value: u16) -> (out: Result<(), HardTuneError>)
        ensures
            value <= MAX_WINDOW ==> out.is_ok() && final(self)@ == (HardTuneEffectView {
                window: value,
                ..old(self)@
            }),
            value > MAX_WINDOW ==> out == Err::<(), HardTuneError>(
                HardTuneError::WindowOutOfRange,
            ) && final(self)@ == old(self)@,
    {
        if value > MAX_WINDOW {
            return Err(HardTuneError::WindowOutOfRange);
        }
        proof {
            use_type_invariant(&*self);
        }
        self.window = value;
        Ok(())
    }

    /// Rate, a percentage.
    pub fn rate(&self) -> (rate: u8)
        ensures
            rate == self@.rate,
            rate <= MAX_PERCENT,
    {
        proof {
            use_type_invariant(self);
        }
        self.rate
    }

    /// Sets the rate. More than 100 is refused and changes nothing.
    pub fn set_rate(&mut self, value: u8) -> (out: Result<(), HardTuneError>)
        ensures
            value <= MAX_PERCENT ==> out.is_ok() && final(self)@ == (HardTuneEffectView {
                rate: value,
                ..old(self)@
            }),
            value > MAX_PERCENT ==> out == Err::<(), HardTuneError>(
                HardTuneError::RateOutOfRange,
            ) && final(self)@ == old(self)@,
    {
        if value > MAX_PERCENT {
            return Err(HardTuneError::RateOutOfRange);
        }
        proof {
            use_type_invariant(&*self);
        }
        self.rate = value;
        Ok(())
    }

    /// Scale.
    pub fn scale(&self) -> (scale: u8)
        ensures
            scale == self@.scale,
    {
        self.scale
    }

    /// Sets the scale. Nothing else changes.
    fn set_scale(&mut self, value: u8)
        ensures
            final(self)@ == (HardTuneEffectView { scale: value, ..old(self)@ }),
    {
        proof {
            use_type_invariant(&*self);
        }
        self.scale = value;
    }

    /// Pitch amount: always 0.
    pub fn pitch_amt(&self) -> (pitch_amt: u8)
        ensures
            pitch_amt == self@.pitch_amt,
            pitch_amt == 0,
    {
        proof {
            use_type_invariant(self);
        }
        self.pitch_amt
    }

    /// Sets the pitch amount. Anything but 0 is refused and changes
    /// nothing.
    fn set_pitch_amt(&mut self, value: u8) -> (out: Result<(), HardTuneError>)
        ensures
            value == 0 ==> out.is_ok() && final(self)@ == (HardTuneEffectView {
                pitch_amt: value,
                ..old(self)@
            }),
            value != 0 ==> out == Err::<(), HardTuneError>(HardTuneError::PitchAmtNotZero)
                && final(self)@ == old(self)@,
    {
        if value != 0 {
            return Err(HardTuneError::PitchAmtNotZero);
        }
        proof {
            use_type_invariant(&*self);
        }
        self.pitch_amt = value;
        Ok(())
    }

    /// The source, where one was chosen.
    pub fn source(&self) -> (source: &Option<HardTuneSource>)
        ensures
            *source == self@.source,
    {
        &self.source
    }

    /// Chooses the source. Nothing else changes.
    pub fn set_source(&mut self, source: HardTuneSource)
        ensures
            final(self)@ == (HardTuneEffectView { source: Some(source), ..old(self)@ }),
    {
        proof {
            use_type_invariant(&*self);
        }
        self.source = Some(source);
    }

    /// The source that is in effect: the chosen one, or every input where
    /// none was chosen.
    pub fn get_source(&self) -> (source: HardTuneSource)
        ensures
            source == (match self@.source {
                Some(chosen) => chosen,
                None => HardTuneSource::All,
            }),
    {
        if let Some(source) = self.source {
            return source;
        }
        HardTuneSource::All
    }
}

} // verus!
