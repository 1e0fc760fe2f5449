use luminair::preprocessed::{
    canonical_order, lookups_to_preprocessed_column, LutFunction, PreProcessedColumnId,
};

fn id(function: LutFunction, col_index: u32) -> PreProcessedColumnId {
    PreProcessedColumnId { function, col_index }
}

#[test]
fn lookup_columns_in_canonical_order() {
    let cols = lookups_to_preprocessed_column(&vec![LutFunction::Exp2, LutFunction::Sin]);
    assert_eq!(
        cols,
        vec![
            id(LutFunction::Sin, 0),
            id(LutFunction::Sin, 1),
            id(LutFunction::Exp2, 0),
            id(LutFunction::Exp2, 1),
        ]
    );
}

#[test]
fn no_lookup_no_column() {
    assert!(lookups_to_preprocessed_column(&vec![]).is_empty());
}

#[test]
fn canonical_order_sorts_by_function_then_index() {
    let ids = vec![
        id(LutFunction::Exp2, 1),
        id(LutFunction::Sin, 1),
        id(LutFunction::Exp2, 0),
        id(LutFunction::Sin, 0),
        id(LutFunction::Sin, 1),
    ];
    assert_eq!(
        canonical_order(&ids),
        vec![
            id(LutFunction::Sin, 0),
            id(LutFunction::Sin, 1),
            id(LutFunction::Sin, 1),
            id(LutFunction::Exp2, 0),
            id(LutFunction::Exp2, 1),
        ]
    );
}
