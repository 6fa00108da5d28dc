use sqlbridge::types::{classify, descriptor_for, Category, ColumnReply, SqlType};

#[test]
fn floating_and_decimal_tags_are_float() {
    assert_eq!(classify(SqlType::Double), Category::Float);
    assert_eq!(classify(SqlType::Real), Category::Float);
    assert_eq!(classify(SqlType::Float), Category::Float);
    assert_eq!(classify(SqlType::Decimal), Category::Float);
    assert_eq!(classify(SqlType::Numeric), Category::Float);
}

#[test]
fn whole_number_tags_are_int() {
    assert_eq!(classify(SqlType::Integer), Category::Int);
    assert_eq!(classify(SqlType::SmallInt), Category::Int);
}

#[test]
fn any_other_tag_falls_back_to_text() {
    assert_eq!(classify(SqlType::Other), Category::Text);
}

#[test]
fn described_column_keeps_name_and_classified_category() {
    let d = descriptor_for(ColumnReply::Known("amount".to_string(), SqlType::Decimal));
    assert_eq!(d.name, "amount");
    assert_eq!(d.category, Category::Float);
}

#[test]
fn failed_description_degrades_to_unknown_text_column() {
    let d = descriptor_for(ColumnReply::Unknown);
    assert_eq!(d.name, "unknown");
    assert_eq!(d.category, Category::Text);
}
