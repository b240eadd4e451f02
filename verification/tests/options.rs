use tantivy::schema::{
    BytesOptions, DateOptions, FacetOptions, IpAddrOptions, NumericOptions, TextFieldIndexing,
    TextOptions, STORED, STRING, TEXT,
};
use tantivy_record::options::{DateTimePrecision, FieldOptions, IndexRecordOption};

#[test]
fn default_options_state_nothing() {
    let options = FieldOptions::default();
    assert!(!options.coerce && !options.fast && !options.fieldnorms && !options.indexed);
    assert!(!options.stored && !options.string && !options.text);
    assert!(options.fast_tokenizer.is_none() && options.tokenizer.is_none());
    assert!(options.index_option.is_none() && options.precision.is_none());
}

#[test]
fn setters_change_their_own_flag() {
    let mut options = FieldOptions::default();
    options.set_coerce(true);
    options.set_fast(true);
    options.set_fieldnorms(true);
    options.set_indexed(true);
    options.set_stored(true);
    options.set_string(true);
    options.set_text(true);
    options.set_fast_tokenizer("raw");
    options.set_tokenizer("en_stem");
    options.set_index_option(IndexRecordOption::WithFreqs);
    options.set_precision(DateTimePrecision::Microseconds);
    assert!(options.coerce && options.fast && options.fieldnorms && options.indexed);
    assert!(options.stored && options.string && options.text);
    assert_eq!(options.fast_tokenizer.as_deref(), Some("raw"));
    assert_eq!(options.tokenizer.as_deref(), Some("en_stem"));
    assert_eq!(options.index_option, Some(IndexRecordOption::WithFreqs));
    assert_eq!(options.precision, Some(DateTimePrecision::Microseconds));
    options.set_fast(false);
    assert!(!options.fast && options.coerce);
}

#[test]
fn numeric_flags_are_carried_over() {
    let mut options = FieldOptions::default();
    options.set_fast(true);
    options.set_stored(true);
    let built = NumericOptions::from(options);
    assert_eq!(built, NumericOptions::default().set_fast().set_stored());
}

#[test]
fn numeric_takes_all_five_flags() {
    let mut options = FieldOptions::default();
    options.set_coerce(true);
    options.set_fast(true);
    options.set_fieldnorms(true);
    options.set_indexed(true);
    options.set_stored(true);
    let built = NumericOptions::from(options);
    let expected = NumericOptions::default()
        .set_coerce()
        .set_fast()
        .set_fieldnorm()
        .set_indexed()
        .set_stored();
    assert_eq!(built, expected);
    assert!(built.should_coerce() && built.is_fast() && built.is_indexed() && built.is_stored());
}

#[test]
fn numeric_ignores_text_intents() {
    let mut options = FieldOptions::default();
    options.set_text(true);
    options.set_string(true);
    options.set_tokenizer("default");
    options.set_index_option(IndexRecordOption::Basic);
    assert_eq!(NumericOptions::from(options), NumericOptions::default());
}

#[test]
fn bytes_and_ip_have_no_coercion() {
    let mut options = FieldOptions::default();
    options.set_coerce(true);
    options.set_indexed(true);
    options.set_fieldnorms(true);
    assert_eq!(
        BytesOptions::from(options.clone()),
        BytesOptions::default().set_indexed().set_fieldnorms()
    );
    assert_eq!(
        IpAddrOptions::from(options),
        IpAddrOptions::default().set_indexed().set_fieldnorms()
    );
}

#[test]
fn date_takes_the_precision() {
    let mut options = FieldOptions::default();
    options.set_fast(true);
    options.set_precision(DateTimePrecision::Milliseconds);
    let built = DateOptions::from(options);
    let expected = DateOptions::default()
        .set_fast()
        .set_precision(tantivy::schema::DateTimePrecision::Milliseconds);
    assert_eq!(built, expected);
    assert_eq!(
        DateOptions::from(FieldOptions::default()).get_precision(),
        tantivy::schema::DateTimePrecision::Seconds
    );
}

#[test]
fn facet_heeds_stored_only() {
    let mut plain = FieldOptions::default();
    plain.set_stored(true);
    let mut busy = FieldOptions::default();
    busy.set_stored(true);
    busy.set_fast(true);
    busy.set_text(true);
    busy.set_indexed(true);
    busy.set_coerce(true);
    busy.set_tokenizer("raw");
    assert_eq!(FacetOptions::from(plain), FacetOptions::from(busy.clone()));
    assert!(FacetOptions::from(busy).is_stored());
    let mut unstored = FieldOptions::default();
    unstored.set_fast(true);
    unstored.set_indexed(true);
    assert_eq!(FacetOptions::from(unstored), FacetOptions::default());
}

#[test]
fn text_and_stored_is_the_full_text_profile_stored() {
    let mut options = FieldOptions::default();
    options.set_text(true);
    options.set_stored(true);
    let built = TextOptions::from(options);
    assert_eq!(built, TEXT | STORED);
}

#[test]
fn string_is_the_keyword_profile() {
    let mut options = FieldOptions::default();
    options.set_string(true);
    assert_eq!(TextOptions::from(options), STRING);
}

#[test]
fn text_wins_over_string() {
    let mut options = FieldOptions::default();
    options.set_string(true);
    options.set_text(true);
    assert_eq!(TextOptions::from(options), TEXT);
}

#[test]
fn text_without_intents_is_not_indexed() {
    let built = TextOptions::from(FieldOptions::default());
    assert_eq!(built, TextOptions::default());
    assert!(built.get_indexing_options().is_none());
}

#[test]
fn text_fast_with_and_without_tokenizer() {
    let mut plain = FieldOptions::default();
    plain.set_fast(true);
    assert_eq!(TextOptions::from(plain), TextOptions::default().set_fast(None));
    let mut named = FieldOptions::default();
    named.set_fast_tokenizer("lower");
    let built = TextOptions::from(named);
    assert_eq!(built, TextOptions::default().set_fast(Some("lower")));
    assert_eq!(built.get_fast_field_tokenizer_name(), Some("lower"));
}

#[test]
fn text_indexing_replaces_the_profile_indexing() {
    let mut options = FieldOptions::default();
    options.set_text(true);
    options.set_tokenizer("en_stem");
    options.set_index_option(IndexRecordOption::WithFreqs);
    let built = TextOptions::from(options);
    let indexing = TextFieldIndexing::default()
        .set_tokenizer("en_stem")
        .set_index_option(tantivy::schema::IndexRecordOption::WithFreqs);
    assert_eq!(built, TEXT.set_indexing_options(indexing));
    let read = built.get_indexing_options().unwrap();
    assert_eq!(read.tokenizer(), "en_stem");
    assert!(read.fieldnorms());
}

#[test]
fn text_indexed_alone_gives_plain_indexing() {
    let mut options = FieldOptions::default();
    options.set_indexed(true);
    options.set_coerce(true);
    let built = TextOptions::from(options);
    let expected = TextOptions::default()
        .set_coerce()
        .set_indexing_options(TextFieldIndexing::default());
    assert_eq!(built, expected);
    let read = built.get_indexing_options().unwrap();
    assert_eq!(read.tokenizer(), "default");
    assert_eq!(read.index_option(), tantivy::schema::IndexRecordOption::Basic);
}

#[test]
fn text_index_option_positions() {
    let mut options = FieldOptions::default();
    options.set_index_option(IndexRecordOption::WithFreqsAndPositions);
    let built = TextOptions::from(options);
    let read = built.get_indexing_options().unwrap();
    assert_eq!(
        read.index_option(),
        tantivy::schema::IndexRecordOption::WithFreqsAndPositions
    );
}

#[test]
fn applying_the_same_intents_twice_changes_nothing() {
    let mut options = FieldOptions::default();
    options.set_text(true);
    options.set_stored(true);
    options.set_fast(true);
    options.set_coerce(true);
    options.set_tokenizer("raw");
    let once = options.apply_text(TextOptions::default());
    let twice = options.apply_text(once.clone());
    assert_eq!(once, twice);
    let once = options.apply_numeric(NumericOptions::default());
    let twice = options.apply_numeric(once.clone());
    assert_eq!(once, twice);
    let once = options.apply_date(DateOptions::default());
    assert_eq!(options.apply_date(once.clone()), once);
    let once = options.apply_bytes(BytesOptions::default());
    assert_eq!(options.apply_bytes(once.clone()), once);
    let once = options.apply_ip_addr(IpAddrOptions::default());
    assert_eq!(options.apply_ip_addr(once.clone()), once);
    let once = options.apply_facet(FacetOptions::default());
    assert_eq!(options.apply_facet(once.clone()), once);
}

#[test]
fn the_same_intents_give_the_same_options() {
    let mut options = FieldOptions::default();
    options.set_indexed(true);
    options.set_fieldnorms(true);
    assert_eq!(
        NumericOptions::from(options.clone()),
        NumericOptions::from(options.clone())
    );
    assert_eq!(TextOptions::from(options.clone()), TextOptions::from(options));
}

#[test]
fn intents_are_laid_over_what_is_there() {
    let mut options = FieldOptions::default();
    options.set_fast(true);
    let built = options.apply_numeric(NumericOptions::default().set_stored());
    assert_eq!(built, NumericOptions::default().set_stored().set_fast());
}

#[test]
fn a_boolean_field_has_no_coercion() {
    let mut plain = FieldOptions::default();
    plain.set_fast(true);
    plain.set_stored(true);
    let mut coercing = plain.clone();
    coercing.set_coerce(true);
    let built = coercing.boolean_options();
    assert_eq!(built, plain.boolean_options());
    assert_eq!(built, NumericOptions::default().set_fast().set_stored());
    assert!(!built.should_coerce());
    let all = NumericOptions::default().set_fast().set_fieldnorm().set_indexed().set_stored();
    let mut every = FieldOptions::default();
    every.set_coerce(true);
    every.set_fast(true);
    every.set_fieldnorms(true);
    every.set_indexed(true);
    every.set_stored(true);
    assert_eq!(every.boolean_options(), all);
    let once = every.apply_boolean(NumericOptions::default());
    assert_eq!(every.apply_boolean(once.clone()), once);
}
