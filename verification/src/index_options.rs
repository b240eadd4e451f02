//! The option structures of tantivy's field kinds, as this library sees
//! them: each is an opaque value whose settings have a name, and each of its
//! setters is believed to change exactly the setting that its source changes.

use crate::options::{DateTimePrecision, IndexRecordOption};
use tantivy::schema::{
    BytesOptions, DateOptions, FacetOptions, IpAddrOptions, NumericOptions, TextFieldIndexing,
    TextOptions,
};
use vstd::prelude::*;

verus! {

/// What a numeric or boolean index field is configured with.
pub struct NumericSettings {
    pub indexed: bool,
    pub fieldnorms: bool,
    pub fast: bool,
    pub stored: bool,
    pub coerce: bool,
}

/// What a bytes index field is configured with.
pub struct BytesSettings {
    pub indexed: bool,
    pub fieldnorms: bool,
    pub fast: bool,
    pub stored: bool,
}

/// What a date index field is configured with.
pub struct DateSettings {
    pub indexed: bool,
    pub fieldnorms: bool,
    pub fast: bool,
    pub stored: bool,
    pub precision: DateTimePrecision,
}

/// What a facet index field is configured with.
pub struct FacetSettings {
    pub stored: bool,
}

/// What an IP-address index field is configured with.
pub struct IpAddrSettings {
    pub fast: bool,
    pub stored: bool,
    pub indexed: bool,
    pub fieldnorms: bool,
}

/// How the terms of a text field are indexed.
pub struct TextIndexingSettings {
    pub record: IndexRecordOption,
    pub fieldnorms: bool,
    pub tokenizer: Seq<char>,
}

/// Whether a text field is a fast field, and with which tokenizer.
pub enum FastTextSetting {
    Disabled,
    Enabled,
    WithTokenizer(Seq<char>),
}

/// What a text index field is configured with.
pub struct TextSettings {
    pub indexing: Option<TextIndexingSettings>,
    pub stored: bool,
    pub fast: FastTextSetting,
    pub coerce: bool,
}

impl NumericSettings {
    pub open spec fn none() -> NumericSettings {
        NumericSettings { indexed: false, fieldnorms: false, fast: false, stored: false, coerce: false }
    }
}

impl BytesSettings {
    pub open spec fn none() -> BytesSettings {
        BytesSettings { indexed: false, fieldnorms: false, fast: false, stored: false }
    }
}

impl DateSettings {
    pub open spec fn none() -> DateSettings {
        DateSettings {
            indexed: false,
            fieldnorms: false,
            fast: false,
            stored: false,
            precision: DateTimePrecision::Seconds,
        }
    }
}

impl FacetSettings {
    pub open spec fn none() -> FacetSettings {
        FacetSettings { stored: false }
    }
}

impl IpAddrSettings {
    pub open spec fn none() -> IpAddrSettings {
        IpAddrSettings { fast: false, stored: false, indexed: false, fieldnorms: false }
    }
}

impl TextIndexingSettings {
    /// Term indexing as `TextFieldIndexing::default()` gives it.
    pub open spec fn plain() -> TextIndexingSettings {
        TextIndexingSettings {
            record: IndexRecordOption::Basic,
            fieldnorms: true,
            tokenizer: "default"@,
        }
    }
}

impl TextSettings {
    pub open spec fn none() -> TextSettings {
        TextSettings { indexing: None, stored: false, fast: FastTextSetting::Disabled, coerce: false }
    }

    /// The exact-keyword profile: the whole text is one term.
    pub open spec fn keyword() -> TextSettings {
        TextSettings {
            indexing: Some(
                TextIndexingSettings {
                    record: IndexRecordOption::Basic,
                    fieldnorms: true,
                    tokenizer: "raw"@,
                },
            ),
            stored: false,
            fast: FastTextSetting::Disabled,
            coerce: false,
        }
    }

    /// The full-text profile: tokenized, with frequencies and positions.
    pub open spec fn full_text() -> TextSettings {
        TextSettings {
            indexing: Some(
                TextIndexingSettings {
                    record: IndexRecordOption::WithFreqsAndPositions,
                    fieldnorms: true,
                    tokenizer: "default"@,
                },
            ),
            stored: false,
            fast: FastTextSetting::Disabled,
            coerce: false,
        }
    }
}

#[verifier::external_type_specification]
#[verifier::external_body]
pub struct ExNumericOptions(NumericOptions);

#[verifier::external_type_specification]
#[verifier::external_body]
pub struct ExBytesOptions(BytesOptions);

#[verifier::external_type_specification]
#[verifier::external_body]
pub struct ExDateOptions(DateOptions);

#[verifier::external_type_specification]
#[verifier::external_body]
pub struct ExFacetOptions(FacetOptions);

#[verifier::external_type_specification]
#[verifier::external_body]
pub struct ExIpAddrOptions(IpAddrOptions);

#[verifier::external_type_specification]
#[verifier::external_body]
pub struct ExTextFieldIndexing(TextFieldIndexing);

#[verifier::external_type_specification]
#[verifier::external_body]
pub struct ExTextOptions(TextOptions);

/// The fields of a `NumericOptions`.
pub uninterp spec fn numeric_settings(options: NumericOptions) -> NumericSettings;

/// The fields of a `BytesOptions`.
pub uninterp spec fn bytes_settings(options: BytesOptions) -> BytesSettings;

/// The fields of a `DateOptions`.
pub uninterp spec fn date_settings(options: DateOptions) -> DateSettings;

/// The field of a `FacetOptions`.
pub uninterp spec fn facet_settings(options: FacetOptions) -> FacetSettings;

/// The fields of an `IpAddrOptions`.
pub uninterp spec fn ip_addr_settings(options: IpAddrOptions) -> IpAddrSettings;

/// The fields of a `TextFieldIndexing`.
pub uninterp spec fn text_indexing_settings(indexing: TextFieldIndexing) -> TextIndexingSettings;

/// The fields of a `TextOptions`.
pub uninterp spec fn text_settings(options: TextOptions) -> TextSettings;

// ---- numeric -------------------------------------------------------------

/// `NumericOptions::default()`, derived: every flag is off.
#[verifier::external_body]
pub(crate) fn numeric_default() -> (r: NumericOptions)
    ensures
        numeric_settings(r) == NumericSettings::none(),
{
    NumericOptions::default()
}

/// Sets `coerce` and nothing else.
pub assume_specification[ NumericOptions::set_coerce ](o: NumericOptions) -> (r: NumericOptions)
    ensures
        numeric_settings(r) == (NumericSettings { coerce: true, ..numeric_settings(o) }),
;

/// Sets `fast` and nothing else.
pub assume_specification[ NumericOptions::set_fast ](o: NumericOptions) -> (r: NumericOptions)
    ensures
        numeric_settings(r) == (NumericSettings { fast: true, ..numeric_settings(o) }),
;

/// Sets `fieldnorms` and nothing else.
pub assume_specification[ NumericOptions::set_fieldnorm ](o: NumericOptions) -> (r: NumericOptions)
    ensures
        numeric_settings(r) == (NumericSettings { fieldnorms: true, ..numeric_settings(o) }),
;

/// Sets `indexed` and nothing else.
pub assume_specification[ NumericOptions::set_indexed ](o: NumericOptions) -> (r: NumericOptions)
    ensures
        numeric_settings(r) == (NumericSettings { indexed: true, ..numeric_settings(o) }),
;

/// Sets `stored` and nothing else.
pub assume_specification[ NumericOptions::set_stored ](o: NumericOptions) -> (r: NumericOptions)
    ensures
        numeric_settings(r) == (NumericSettings { stored: true, ..numeric_settings(o) }),
;

// ---- bytes ---------------------------------------------------------------

/// `BytesOptions::default()`, derived: every flag is off.
#[verifier::external_body]
pub(crate) fn bytes_default() -> (r: BytesOptions)
    ensures
        bytes_settings(r) == BytesSettings::none(),
{
    BytesOptions::default()
}

/// Sets `fast` and nothing else.
pub assume_specification[ BytesOptions::set_fast ](o: BytesOptions) -> (r: BytesOptions)
    ensures
        bytes_settings(r) == (BytesSettings { fast: true, ..bytes_settings(o) }),
;

/// Sets `fieldnorms` and nothing else.
pub assume_specification[ BytesOptions::set_fieldnorms ](o: BytesOptions) -> (r: BytesOptions)
    ensures
        bytes_settings(r) == (BytesSettings { fieldnorms: true, ..bytes_settings(o) }),
;

/// Sets `indexed` and nothing else.
pub assume_specification[ BytesOptions::set_indexed ](o: BytesOptions) -> (r: BytesOptions)
    ensures
        bytes_settings(r) == (BytesSettings { indexed: true, ..bytes_settings(o) }),
;

/// Sets `stored` and nothing else.
pub assume_specification[ BytesOptions::set_stored ](o: BytesOptions) -> (r: BytesOptions)
    ensures
        bytes_settings(r) == (BytesSettings { stored: true, ..bytes_settings(o) }),
;

// ---- date ----------------------------------------------------------------

/// `DateOptions::default()`, derived: every flag is off, the precision is
/// the default of `DateTimePrecision`, seconds.
#[verifier::external_body]
pub(crate) fn date_default() -> (r: DateOptions)
    ensures
        date_settings(r) == DateSettings::none(),
{
    DateOptions::default()
}

/// Sets `fast` and nothing else.
pub assume_specification[ DateOptions::set_fast ](o: DateOptions) -> (r: DateOptions)
    ensures
        date_settings(r) == (DateSettings { fast: true, ..date_settings(o) }),
;

/// Sets `fieldnorms` and nothing else.
pub assume_specification[ DateOptions::set_fieldnorm ](o: DateOptions) -> (r: DateOptions)
    ensures
        date_settings(r) == (DateSettings { fieldnorms: true, ..date_settings(o) }),
;

/// Sets `indexed` and nothing else.
pub assume_specification[ DateOptions::set_indexed ](o: DateOptions) -> (r: DateOptions)
    ensures
        date_settings(r) == (DateSettings { indexed: true, ..date_settings(o) }),
;

/// Sets `stored` and nothing else.
pub assume_specification[ DateOptions::set_stored ](o: DateOptions) -> (r: DateOptions)
    ensures
        date_settings(r) == (DateSettings { stored: true, ..date_settings(o) }),
;

/// `DateOptions::set_precision`: replaces the precision and nothing else.
#[verifier::external_body]
pub(crate) fn date_set_precision(o: DateOptions, precision: DateTimePrecision) -> (r: DateOptions)
    ensures
        date_settings(r) == (DateSettings { precision: precision, ..date_settings(o) }),
{
    o.set_precision(
        match precision {
            DateTimePrecision::Seconds => tantivy::schema::DateTimePrecision::Seconds,
            DateTimePrecision::Milliseconds => tantivy::schema::DateTimePrecision::Milliseconds,
            DateTimePrecision::Microseconds => tantivy::schema::DateTimePrecision::Microseconds,
            DateTimePrecision::Nanoseconds => tantivy::schema::DateTimePrecision::Nanoseconds,
        },
    )
}

// ---- facet ---------------------------------------------------------------

/// `FacetOptions::default()`, derived: not stored.
#[verifier::external_body]
pub(crate) fn facet_default() -> (r: FacetOptions)
    ensures
        facet_settings(r) == FacetSettings::none(),
{
    FacetOptions::default()
}

/// Sets `stored`.
pub assume_specification[ FacetOptions::set_stored ](o: FacetOptions) -> (r: FacetOptions)
    ensures
        facet_settings(r) == (FacetSettings { stored: true }),
;

// ---- ip address ----------------------------------------------------------

/// `IpAddrOptions::default()`, derived: every flag is off.
#[verifier::external_body]
pub(crate) fn ip_addr_default() -> (r: IpAddrOptions)
    ensures
        ip_addr_settings(r) == IpAddrSettings::none(),
{
    IpAddrOptions::default()
}

/// Sets `fast` and nothing else.
pub assume_specification[ IpAddrOptions::set_fast ](o: IpAddrOptions) -> (r: IpAddrOptions)
    ensures
        ip_addr_settings(r) == (IpAddrSettings { fast: true, ..ip_addr_settings(o) }),
;

/// Sets `fieldnorms` and nothing else.
pub assume_specification[ IpAddrOptions::set_fieldnorms ](o: IpAddrOptions) -> (r: IpAddrOptions)
    ensures
        ip_addr_settings(r) == (IpAddrSettings { fieldnorms: true, ..ip_addr_settings(o) }),
;

/// Sets `indexed` and nothing else.
pub assume_specification[ IpAddrOptions::set_indexed ](o: IpAddrOptions) -> (r: IpAddrOptions)
    ensures
        ip_addr_settings(r) == (IpAddrSettings { indexed: true, ..ip_addr_settings(o) }),
;

/// Sets `stored` and nothing else.
pub assume_specification[ IpAddrOptions::set_stored ](o: IpAddrOptions) -> (r: IpAddrOptions)
    ensures
        ip_addr_settings(r) == (IpAddrSettings { stored: true, ..ip_addr_settings(o) }),
;

// ---- text ----------------------------------------------------------------

/// `TextOptions::default()`, derived: not indexed, not stored, not fast, no
/// coercion.
#[verifier::external_body]
pub(crate) fn text_default() -> (r: TextOptions)
    ensures
        text_settings(r) == TextSettings::none(),
{
    TextOptions::default()
}

/// The constant `STRING`: indexed untokenized (tokenizer "raw"), basic
/// records, field norms on; nothing else set.
#[verifier::external_body]
pub(crate) fn text_keyword_preset() -> (r: TextOptions)
    ensures
        text_settings(r) == TextSettings::keyword(),
{
    tantivy::schema::STRING
}

/// The constant `TEXT`: indexed with tokenizer "default", frequencies and
/// positions recorded, field norms on; nothing else set.
#[verifier::external_body]
pub(crate) fn text_full_text_preset() -> (r: TextOptions)
    ensures
        text_settings(r) == TextSettings::full_text(),
{
    tantivy::schema::TEXT
}

/// Sets `coerce` and nothing else.
pub assume_specification[ TextOptions::set_coerce ](o: TextOptions) -> (r: TextOptions)
    ensures
        text_settings(r) == (TextSettings { coerce: true, ..text_settings(o) }),
;

/// Sets `stored` and nothing else.
pub assume_specification[ TextOptions::set_stored ](o: TextOptions) -> (r: TextOptions)
    ensures
        text_settings(r) == (TextSettings { stored: true, ..text_settings(o) }),
;

/// Makes the field fast: with the named tokenizer when one is given, plainly
/// enabled otherwise. Nothing else changes.
pub assume_specification<'a>[ TextOptions::set_fast ](
    o: TextOptions,
    tokenizer_name: Option<&'a str>,
) -> (r: TextOptions)
    ensures
        text_settings(r) == (TextSettings {
            fast: match tokenizer_name {
                Some(name) => FastTextSetting::WithTokenizer(name@),
                None => FastTextSetting::Enabled,
            },
            ..text_settings(o)
        }),
;

/// Replaces the indexing options and nothing else.
pub assume_specification[ TextOptions::set_indexing_options ](
    o: TextOptions,
    indexing: TextFieldIndexing,
) -> (r: TextOptions)
    ensures
        text_settings(r) == (TextSettings {
            indexing: Some(text_indexing_settings(indexing)),
            ..text_settings(o)
        }),
;

/// `TextFieldIndexing::default()`: tokenizer "default", basic records, field
/// norms on.
#[verifier::external_body]
pub(crate) fn text_indexing_default() -> (r: TextFieldIndexing)
    ensures
        text_indexing_settings(r) == TextIndexingSettings::plain(),
{
    TextFieldIndexing::default()
}

/// Replaces the tokenizer's name and nothing else.
pub assume_specification<'a>[ TextFieldIndexing::set_tokenizer ](
    o: TextFieldIndexing,
    tokenizer_name: &'a str,
) -> (r: TextFieldIndexing)
    ensures
        text_indexing_settings(r) == (TextIndexingSettings {
            tokenizer: tokenizer_name@,
            ..text_indexing_settings(o)
        }),
;

/// Replaces the field-norms flag and nothing else.
pub assume_specification[ TextFieldIndexing::set_fieldnorms ](
    o: TextFieldIndexing,
    fieldnorms: bool,
) -> (r: TextFieldIndexing)
    ensures
        text_indexing_settings(r) == (TextIndexingSettings {
            fieldnorms: fieldnorms,
            ..text_indexing_settings(o)
        }),
;

/// `TextFieldIndexing::set_index_option`: replaces what is recorded per term
/// and nothing else.
#[verifier::external_body]
pub(crate) fn text_indexing_set_record(o: TextFieldIndexing, record: IndexRecordOption) -> (r:
    TextFieldIndexing)
    ensures
        text_indexing_settings(r) == (TextIndexingSettings {
            record: record,
            ..text_indexing_settings(o)
        }),
{
    o.set_index_option(
        match record {
            IndexRecordOption::Basic => tantivy::schema::IndexRecordOption::Basic,
            IndexRecordOption::WithFreqs => tantivy::schema::IndexRecordOption::WithFreqs,
            IndexRecordOption::WithFreqsAndPositions => {
                tantivy::schema::IndexRecordOption::WithFreqsAndPositions
            },
        },
    )
}

} // verus!
