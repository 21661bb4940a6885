//! User preferences: the AI model and the polling interval.

use vstd::prelude::*;

verus! {

/// The AI models on offer.
#[derive(PartialEq, Eq, Structural, Clone, Copy, Debug)]
pub enum GeminiModel {
    Gemini20Flash,
    Gemini25Flash,
    Gemini3FlashPreview,
}

pub open spec fn api_name_spec(m: GeminiModel) -> Seq<char> {
    match m {
        GeminiModel::Gemini20Flash => "gemini-2.0-flash"@,
        GeminiModel::Gemini25Flash => "gemini-2.5-flash"@,
        GeminiModel::Gemini3FlashPreview => "gemini-3-flash-preview"@,
    }
}

impl GeminiModel {
    /// The model's identifier in the AI service's API.
    pub fn api_name(&self) -> (r: &'static str)
        ensures
            r@ == api_name_spec(*self),
    {
        match self {
            GeminiModel::Gemini20Flash => "gemini-2.0-flash",
            GeminiModel::Gemini25Flash => "gemini-2.5-flash",
            GeminiModel::Gemini3FlashPreview => "gemini-3-flash-preview",
        }
    }

    /// The model's name for display.
    pub fn display_name(&self) -> (r: &'static str)
        ensures
            r@ == match *self {
                GeminiModel::Gemini20Flash => "Gemini 2.0 Flash"@,
                GeminiModel::Gemini25Flash => "Gemini 2.5 Flash"@,
                GeminiModel::Gemini3FlashPreview => "Gemini 3 Flash Preview"@,
            },
    {
        match self {
            GeminiModel::Gemini20Flash => "Gemini 2.0 Flash",
            GeminiModel::Gemini25Flash => "Gemini 2.5 Flash",
            GeminiModel::Gemini3FlashPreview => "Gemini 3 Flash Preview",
        }
    }

    /// The model with this API identifier, if any.
    pub fn from_str(s: &str) -> (r: Option<GeminiModel>)
        ensures
            match r {
                Some(m) => api_name_spec(m) == s@,
                None => forall|m: GeminiModel| api_name_spec(m) != s@,
            },
    {
        if crate::text::str_eq(s, "gemini-2.0-flash") {
            Some(GeminiModel::Gemini20Flash)
        } else if crate::text::str_eq(s, "gemini-2.5-flash") {
            Some(GeminiModel::Gemini25Flash)
        } else if crate::text::str_eq(s, "gemini-3-flash-preview") {
            Some(GeminiModel::Gemini3FlashPreview)
        } else {
            None
        }
    }

    /// The model after this one in menu order, the first after the last.
    pub fn next(&self) -> (r: GeminiModel)
        ensures
            r == match *self {
                GeminiModel::Gemini20Flash => GeminiModel::Gemini25Flash,
                GeminiModel::Gemini25Flash => GeminiModel::Gemini3FlashPreview,
                GeminiModel::Gemini3FlashPreview => GeminiModel::Gemini20Flash,
            },
    {
        match self {
            GeminiModel::Gemini20Flash => GeminiModel::Gemini25Flash,
            GeminiModel::Gemini25Flash => GeminiModel::Gemini3FlashPreview,
            GeminiModel::Gemini3FlashPreview => GeminiModel::Gemini20Flash,
        }
    }

    /// Every model, in menu order.
    pub fn all() -> (r: [GeminiModel; 3])
        ensures
            r@ == seq![
                GeminiModel::Gemini20Flash,
                GeminiModel::Gemini25Flash,
                GeminiModel::Gemini3FlashPreview,
            ],
    {
        let r = [
            GeminiModel::Gemini20Flash,
            GeminiModel::Gemini25Flash,
            GeminiModel::Gemini3FlashPreview,
        ];
        assert(r@ =~= seq![
            GeminiModel::Gemini20Flash,
            GeminiModel::Gemini25Flash,
            GeminiModel::Gemini3FlashPreview,
        ]);
        r
    }
}

impl Default for GeminiModel {
    fn default() -> (r: Self)
        ensures
            r == GeminiModel::Gemini25Flash,
    {
        GeminiModel::Gemini25Flash
    }
}

/// The polling interval for comments when none is configured, in seconds.
pub fn default_poll_interval() -> (r: u64)
    ensures
        r == 30,
{
    30
}

/// The application's preferences.
pub struct Config {
    pub gemini_model: GeminiModel,
    /// Polling interval for comments, in seconds.
    pub poll_interval_secs: u64,
}

impl Default for Config {
    fn default() -> (r: Self)
        ensures
            r.gemini_model == GeminiModel::Gemini25Flash,
            r.poll_interval_secs == 30,
    {
        Config { gemini_model: GeminiModel::Gemini25Flash, poll_interval_secs: default_poll_interval() }
    }
}

impl Config {
    /// Choose the AI model.
    pub fn set_gemini_model(&mut self, model: GeminiModel)
        ensures
            final(self).gemini_model == model,
            final(self).poll_interval_secs == old(self).poll_interval_secs,
    {
        self.gemini_model = model;
    }
}

} // verus!
