//! Indexing intents of one attribute, and how they collapse into the option
//! set of each kind of index field.
//!
//! The model is permissive: an intent that a field kind has no use for is
//! ignored by that kind's merge, never rejected.

use crate::index_options::{
    bytes_default, bytes_settings, date_default, date_set_precision, date_settings, facet_default,
    facet_settings, ip_addr_default, ip_addr_settings, numeric_default, numeric_settings,
    text_default, text_full_text_preset, text_indexing_default, text_indexing_set_record,
    text_keyword_preset, text_settings, BytesSettings, DateSettings, FacetSettings,
    FastTextSetting, IpAddrSettings, NumericSettings, TextIndexingSettings, TextSettings,
};
use tantivy::schema::{
    BytesOptions, DateOptions, FacetOptions, IpAddrOptions, NumericOptions, TextOptions,
};
use vstd::prelude::*;

verus! {

/// How much is recorded for each term of an indexed text field.
#[derive(Clone, Copy, Debug, PartialEq, Eq, Structural)]
pub enum IndexRecordOption {
    /// Document ids only.
    Basic,
    /// Document ids and term frequencies.
    WithFreqs,
    /// Document ids, term frequencies and positions.
    WithFreqsAndPositions,
}

/// Precision at which a date field keeps its values in fast storage.
#[derive(Clone, Copy, Debug, PartialEq, Eq, Structural)]
pub enum DateTimePrecision {
    Seconds,
    Milliseconds,
    Microseconds,
    Nanoseconds,
}

/// The indexing intents declared for one attribute. The flags are
/// independent of each other and may combine freely.
#[derive(Debug)]
pub struct FieldOptions {
    pub coerce: bool,
    pub fast: bool,
    pub fieldnorms: bool,
    pub indexed: bool,
    pub stored: bool,
    pub string: bool,
    pub text: bool,
    pub fast_tokenizer: Option<String>,
    pub tokenizer: Option<String>,
    pub index_option: Option<IndexRecordOption>,
    pub precision: Option<DateTimePrecision>,
}

/// Mathematical value of a [`FieldOptions`].
pub struct FieldOptionSet {
    pub coerce: bool,
    pub fast: bool,
    pub fieldnorms: bool,
    pub indexed: bool,
    pub stored: bool,
    pub string: bool,
    pub text: bool,
    pub fast_tokenizer: Option<Seq<char>>,
    pub tokenizer: Option<Seq<char>>,
    pub index_option: Option<IndexRecordOption>,
    pub precision: Option<DateTimePrecision>,
}

/// The text of an optional name.
pub open spec fn name_view(name: Option<String>) -> Option<Seq<char>> {
    match name {
        Some(t) => Some(t@),
        None => None,
    }
}

impl View for FieldOptions {
    type V = FieldOptionSet;

    open spec fn view(&self) -> FieldOptionSet {
        FieldOptionSet {
            coerce: self.coerce,
            fast: self.fast,
            fieldnorms: self.fieldnorms,
            indexed: self.indexed,
            stored: self.stored,
            string: self.string,
            text: self.text,
            fast_tokenizer: name_view(self.fast_tokenizer),
            tokenizer: name_view(self.tokenizer),
            index_option: self.index_option,
            precision: self.precision,
        }
    }
}

impl FieldOptionSet {
    /// No intent at all.
    pub open spec fn empty() -> FieldOptionSet {
        FieldOptionSet {
            coerce: false,
            fast: false,
            fieldnorms: false,
            indexed: false,
            stored: false,
            string: false,
            text: false,
            fast_tokenizer: None,
            tokenizer: None,
            index_option: None,
            precision: None,
        }
    }

    /// Numeric settings after these intents were laid over `base`: `coerce`,
    /// `fast`, `fieldnorms`, `indexed` and `stored` switch their flag on.
    pub open spec fn onto_numeric(self, base: NumericSettings) -> NumericSettings {
        NumericSettings {
            indexed: base.indexed || self.indexed,
            fieldnorms: base.fieldnorms || self.fieldnorms,
            fast: base.fast || self.fast,
            stored: base.stored || self.stored,
            coerce: base.coerce || self.coerce,
        }
    }

    /// The settings of a boolean field after these intents were laid over
    /// `base`: `fast`, `fieldnorms`, `indexed` and `stored` switch their
    /// flag on. A boolean is never coerced, so `coerce` is left as it
    /// was.
    pub open spec fn onto_boolean(self, base: NumericSettings) -> NumericSettings {
        NumericSettings {
            indexed: base.indexed || self.indexed,
            fieldnorms: base.fieldnorms || self.fieldnorms,
            fast: base.fast || self.fast,
            stored: base.stored || self.stored,
            coerce: base.coerce,
        }
    }

    /// Bytes settings after these intents were laid over `base`.
    pub open spec fn onto_bytes(self, base: BytesSettings) -> BytesSettings {
        BytesSettings {
            indexed: base.indexed || self.indexed,
            fieldnorms: base.fieldnorms || self.fieldnorms,
            fast: base.fast || self.fast,
            stored: base.stored || self.stored,
        }
    }

    /// Date settings after these intents were laid over `base`.
    pub open spec fn onto_date(self, base: DateSettings) -> DateSettings {
        DateSettings {
            indexed: base.indexed || self.indexed,
            fieldnorms: base.fieldnorms || self.fieldnorms,
            fast: base.fast || self.fast,
            stored: base.stored || self.stored,
            precision: match self.precision {
                Some(p) => p,
                None => base.precision,
            },
        }
    }

    /// Facet settings after these intents were laid over `base`: only
    /// `stored` counts, a facet field has no other setting.
    pub open spec fn onto_facet(self, base: FacetSettings) -> FacetSettings {
        FacetSettings { stored: base.stored || self.stored }
    }

    /// IP-address settings after these intents were laid over `base`.
    pub open spec fn onto_ip_addr(self, base: IpAddrSettings) -> IpAddrSettings {
        IpAddrSettings {
            fast: base.fast || self.fast,
            stored: base.stored || self.stored,
            indexed: base.indexed || self.indexed,
            fieldnorms: base.fieldnorms || self.fieldnorms,
        }
    }

    /// Whether these intents ask for term indexing of their own.
    pub open spec fn wants_indexing(self) -> bool {
        self.indexed || self.tokenizer is Some || self.index_option is Some
    }

    /// Whether these intents make a text field fast.
    pub open spec fn wants_fast_text(self) -> bool {
        self.fast || self.fast_tokenizer is Some
    }

    /// The term indexing that these intents ask for: the named tokenizer or
    /// "default", the given recording depth or the basic one, field norms
    /// on (they are on unless switched off, and no intent switches them
    /// off).
    pub open spec fn indexing(self) -> TextIndexingSettings {
        TextIndexingSettings {
            record: match self.index_option {
                Some(r) => r,
                None => IndexRecordOption::Basic,
            },
            fieldnorms: true,
            tokenizer: match self.tokenizer {
                Some(t) => t,
                None => "default"@,
            },
        }
    }

    /// The profile that a text field starts from: the full-text profile
    /// where `text` is set, else the keyword profile where `string` is set,
    /// else `base`.
    pub open spec fn text_profile(self, base: TextSettings) -> TextSettings {
        if self.text {
            TextSettings::full_text()
        } else if self.string {
            TextSettings::keyword()
        } else {
            base
        }
    }

    /// Text settings after these intents were laid over `base`.
    pub open spec fn onto_text(self, base: TextSettings) -> TextSettings {
        let profile = self.text_profile(base);
        TextSettings {
            indexing: if self.wants_indexing() {
                Some(self.indexing())
            } else {
                profile.indexing
            },
            stored: profile.stored || self.stored,
            fast: if self.wants_fast_text() {
                match self.fast_tokenizer {
                    Some(t) => FastTextSetting::WithTokenizer(t),
                    None => FastTextSetting::Enabled,
                }
            } else {
                profile.fast
            },
            coerce: profile.coerce || self.coerce,
        }
    }

    /// The settings of a numeric field declared with these intents.
    pub open spec fn numeric(self) -> NumericSettings {
        self.onto_numeric(NumericSettings::none())
    }

    /// The settings of a boolean field declared with these intents; it has
    /// no coercion.
    pub open spec fn boolean(self) -> NumericSettings {
        self.onto_boolean(NumericSettings::none())
    }

    /// The settings of a bytes field declared with these intents.
    pub open spec fn bytes(self) -> BytesSettings {
        self.onto_bytes(BytesSettings::none())
    }

    /// The settings of a date field declared with these intents.
    pub open spec fn date(self) -> DateSettings {
        self.onto_date(DateSettings::none())
    }

    /// The settings of a facet field declared with these intents.
    pub open spec fn facet(self) -> FacetSettings {
        self.onto_facet(FacetSettings::none())
    }

    /// The settings of an IP-address field declared with these intents.
    pub open spec fn ip_addr(self) -> IpAddrSettings {
        self.onto_ip_addr(IpAddrSettings::none())
    }

    /// The settings of a text field declared with these intents.
    pub open spec fn text(self) -> TextSettings {
        self.onto_text(TextSettings::none())
    }
}

fn clone_name(name: &Option<String>) -> (r: Option<String>)
    ensures
        r == *name,
{
    match name {
        Some(t) => Some(t.clone()),
        None => None,
    }
}

impl Clone for FieldOptions {
    fn clone(&self) -> (r: Self)
        ensures
            r == *self,
    {
        FieldOptions {
            coerce: self.coerce,
            fast: self.fast,
            fieldnorms: self.fieldnorms,
            indexed: self.indexed,
            stored: self.stored,
            string: self.string,
            text: self.text,
            fast_tokenizer: clone_name(&self.fast_tokenizer),
            tokenizer: clone_name(&self.tokenizer),
            index_option: self.index_option,
            precision: self.precision,
        }
    }
}

impl Default for FieldOptions {
    fn default() -> (r: Self)
        ensures
            r@ == FieldOptionSet::empty(),
    {
        FieldOptions {
            coerce: false,
            fast: false,
            fieldnorms: false,
            indexed: false,
            stored: false,
            string: false,
            text: false,
            fast_tokenizer: None,
            tokenizer: None,
            index_option: None,
            precision: None,
        }
    }
}

impl FieldOptions {
    pub fn set_coerce(&mut self, value: bool)
        ensures
            final(self)@ == (FieldOptionSet { coerce: value, ..old(self)@ }),
    {
        self.coerce = value;
    }

    pub fn set_fast(&mut self, value: bool)
        ensures
            final(self)@ == (FieldOptionSet { fast: value, ..old(self)@ }),
    {
        self.fast = value;
    }

    pub fn set_fieldnorms(&mut self, value: bool)
        ensures
            final(self)@ == (FieldOptionSet { fieldnorms: value, ..old(self)@ }),
    {
        self.fieldnorms = value;
    }

    pub fn set_indexed(&mut self, value: bool)
        ensures
            final(self)@ == (FieldOptionSet { indexed: value, ..old(self)@ }),
    {
        self.indexed = value;
    }

    pub fn set_stored(&mut self, value: bool)
        ensures
            final(self)@ == (FieldOptionSet { stored: value, ..old(self)@ }),
    {
        self.stored = value;
    }

    pub fn set_string(&mut self, value: bool)
        ensures
            final(self)@ == (FieldOptionSet { string: value, ..old(self)@ }),
    {
        self.string = value;
    }

    pub fn set_text(&mut self, value: bool)
        ensures
            final(self)@ == (FieldOptionSet { text: value, ..old(self)@ }),
    {
        self.text = value;
    }

    pub fn set_fast_tokenizer(&mut self, tokenizer: &str)
        ensures
            final(self)@ == (FieldOptionSet { fast_tokenizer: Some(tokenizer@), ..old(self)@ }),
    {
        self.fast_tokenizer = Some(String::from_str(tokenizer));
    }

    pub fn set_tokenizer(&mut self, tokenizer: &str)
        ensures
            final(self)@ == (FieldOptionSet { tokenizer: Some(tokenizer@), ..old(self)@ }),
    {
        self.tokenizer = Some(String::from_str(tokenizer));
    }

    pub fn set_index_option(&mut self, index_option: IndexRecordOption)
        ensures
            final(self)@ == (FieldOptionSet { index_option: Some(index_option), ..old(self)@ }),
    {
        self.index_option = Some(index_option);
    }

    pub fn set_precision(&mut self, precision: DateTimePrecision)
        ensures
            final(self)@ == (FieldOptionSet { precision: Some(precision), ..old(self)@ }),
    {
        self.precision = Some(precision);
    }

    /// Lays these intents over the numeric options `base`.
    pub fn apply_numeric(&self, base: NumericOptions) -> (options: NumericOptions)
        ensures
            numeric_settings(options) == self@.onto_numeric(numeric_settings(base)),
    {
        let mut options = base;
        if self.coerce {
            options = options.set_coerce();
        }
        if self.fast {
            options = options.set_fast();
        }
        if self.fieldnorms {
            options = options.set_fieldnorm();
        }
        if self.indexed {
            options = options.set_indexed();
        }
        if self.stored {
            options = options.set_stored();
        }
        options
    }

    /// Lays these intents over the options `base` of a boolean field:
    /// all of them but `coerce`, which a boolean field has no use for.
    pub fn apply_boolean(&self, base: NumericOptions) -> (options: NumericOptions)
        ensures
            numeric_settings(options) == self@.onto_boolean(numeric_settings(base)),
    {
        let mut options = base;
        if self.fast {
            options = options.set_fast();
        }
        if self.fieldnorms {
            options = options.set_fieldnorm();
        }
        if self.indexed {
            options = options.set_indexed();
        }
        if self.stored {
            options = options.set_stored();
        }
        options
    }

    /// The options of a boolean field declared with these intents.
    pub fn boolean_options(&self) -> (options: NumericOptions)
        ensures
            numeric_settings(options) == self@.boolean(),
    {
        self.apply_boolean(numeric_default())
    }

    /// Lays these intents over the bytes options `base`.
    pub fn apply_bytes(&self, base: BytesOptions) -> (options: BytesOptions)
        ensures
            bytes_settings(options) == self@.onto_bytes(bytes_settings(base)),
    {
        let mut options = base;
        if self.fast {
            options = options.set_fast();
        }
        if self.fieldnorms {
            options = options.set_fieldnorms();
        }
        if self.indexed {
            options = options.set_indexed();
        }
        if self.stored {
            options = options.set_stored();
        }
        options
    }

    /// Lays these intents over the date options `base`.
    pub fn apply_date(&self, base: DateOptions) -> (options: DateOptions)
        ensures
            date_settings(options) == self@.onto_date(date_settings(base)),
    {
        let mut options = base;
        if self.fast {
            options = options.set_fast();
        }
        if self.fieldnorms {
            options = options.set_fieldnorm();
        }
        if self.indexed {
            options = options.set_indexed();
        }
        if self.stored {
            options = options.set_stored();
        }
        if let Some(precision) = self.precision {
            options = date_set_precision(options, precision);
        }
        options
    }

    /// Lays these intents over the facet options `base`. Only `stored` is
    /// applied: a facet is always indexed and fast, so the other intents
    /// have nothing to say about it.
    pub fn apply_facet(&self, base: FacetOptions) -> (options: FacetOptions)
        ensures
            facet_settings(options) == self@.onto_facet(facet_settings(base)),
    {
        let mut options = base;
        if self.stored {
            options = options.set_stored();
        }
        options
    }

    /// Lays these intents over the IP-address options `base`.
    pub fn apply_ip_addr(&self, base: IpAddrOptions) -> (options: IpAddrOptions)
        ensures
            ip_addr_settings(options) == self@.onto_ip_addr(ip_addr_settings(base)),
    {
        let mut options = base;
        if self.fast {
            options = options.set_fast();
        }
        if self.fieldnorms {
            options = options.set_fieldnorms();
        }
        if self.indexed {
            options = options.set_indexed();
        }
        if self.stored {
            options = options.set_stored();
        }
        options
    }

    /// Lays these intents over the text options `base`: the profile first
    /// (`string`, then `text` over it), then `coerce`, the fast setting,
    /// `stored`, and last the term indexing where one is asked for.
    pub fn apply_text(&self, base: TextOptions) -> (options: TextOptions)
        ensures
            text_settings(options) == self@.onto_text(text_settings(base)),
    {
        let mut options = base;
        if self.string {
            options = text_keyword_preset();
        }
        if self.text {
            options = text_full_text_preset();
        }
        if self.coerce {
            options = options.set_coerce();
        }
        if self.fast || self.fast_tokenizer.is_some() {
            options = match &self.fast_tokenizer {
                Some(name) => options.set_fast(Some(name.as_str())),
                None => options.set_fast(None),
            };
        }
        if self.stored {
            options = options.set_stored();
        }
        if self.indexed || self.tokenizer.is_some() || self.index_option.is_some() {
            let mut indexing = text_indexing_default();
            if let Some(tokenizer) = &self.tokenizer {
                indexing = indexing.set_tokenizer(tokenizer.as_str());
            }
            if let Some(index_option) = self.index_option {
                indexing = text_indexing_set_record(indexing, index_option);
            }
            if self.fieldnorms {
                indexing = indexing.set_fieldnorms(true);
            }
            options = options.set_indexing_options(indexing);
        }
        options
    }
}

impl From<FieldOptions> for BytesOptions {
    fn from(value: FieldOptions) -> (options: BytesOptions)
        ensures
            bytes_settings(options) == value@.bytes(),
    {
        value.apply_bytes(bytes_default())
    }
}

impl From<FieldOptions> for DateOptions {
    fn from(value: FieldOptions) -> (options: DateOptions)
        ensures
            date_settings(options) == value@.date(),
    {
        value.apply_date(date_default())
    }
}

impl From<FieldOptions> for FacetOptions {
    fn from(value: FieldOptions) -> (options: FacetOptions)
        ensures
            facet_settings(options) == value@.facet(),
    {
        value.apply_facet(facet_default())
    }
}

impl From<FieldOptions> for IpAddrOptions {
    fn from(value: FieldOptions) -> (options: IpAddrOptions)
        ensures
            ip_addr_settings(options) == value@.ip_addr(),
    {
        value.apply_ip_addr(ip_addr_default())
    }
}

impl From<FieldOptions> for NumericOptions {
    fn from(value: FieldOptions) -> (options: NumericOptions)
        ensures
            numeric_settings(options) == value@.numeric(),
    {
        value.apply_numeric(numeric_default())
    }
}

impl From<FieldOptions> for TextOptions {
    fn from(value: FieldOptions) -> (options: TextOptions)
        ensures
            text_settings(options) == value@.text(),
    {
        value.apply_text(text_default())
    }
}

// A conversion into an option structure is pinned down by the settings that
// the result holds, stated on `from` itself; the tantivy value is opaque, so
// no spec-level constructor can name it.
impl vstd::std_specs::convert::FromSpecImpl<FieldOptions> for BytesOptions {
    open spec fn obeys_from_spec() -> bool {
        false
    }

    open spec fn from_spec(v: FieldOptions) -> Self {
        arbitrary()
    }
}

impl vstd::std_specs::convert::FromSpecImpl<FieldOptions> for DateOptions {
    open spec fn obeys_from_spec() -> bool {
        false
    }

    open spec fn from_spec(v: FieldOptions) -> Self {
        arbitrary()
    }
}

impl vstd::std_specs::convert::FromSpecImpl<FieldOptions> for FacetOptions {
    open spec fn obeys_from_spec() -> bool {
        false
    }

    open spec fn from_spec(v: FieldOptions) -> Self {
        arbitrary()
    }
}

impl vstd::std_specs::convert::FromSpecImpl<FieldOptions> for IpAddrOptions {
    open spec fn obeys_from_spec() -> bool {
        false
    }

    open spec fn from_spec(v: FieldOptions) -> Self {
        arbitrary()
    }
}

impl vstd::std_specs::convert::FromSpecImpl<FieldOptions> for NumericOptions {
    open spec fn obeys_from_spec() -> bool {
        false
    }

    open spec fn from_spec(v: FieldOptions) -> Self {
        arbitrary()
    }
}

impl vstd::std_specs::convert::FromSpecImpl<FieldOptions> for TextOptions {
    open spec fn obeys_from_spec() -> bool {
        false
    }

    open spec fn from_spec(v: FieldOptions) -> Self {
        arbitrary()
    }
}

} // verus!
