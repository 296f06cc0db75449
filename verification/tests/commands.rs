use nu_plugin_roaring::command::ValueArg;
use nu_plugin_roaring::error::InputError;
use nu_plugin_roaring::input::{ListItem, PipelineInput, PipelineSpan};
use nu_plugin_roaring::range::{to_u32_range, EndBound, RangeArg};
use nu_plugin_roaring::{ContainsCommand, LenCommand, ListCommand, NewCommand, RoaringPlugin};

fn span() -> PipelineSpan {
    PipelineSpan { start: 3, end: 9 }
}

fn mixed_list() -> PipelineInput {
    PipelineInput::ListInput(
        vec![
            ListItem::IntItem(0),
            ListItem::IntItem(1),
            ListItem::IntItem(2),
            ListItem::RangeItem(RangeArg::IntRange { start: 10, end: EndBound::Excluded(15) }),
        ],
        span(),
    )
}

#[test]
fn canonicalization_included_excluded_unbounded() {
    let inc = to_u32_range(RangeArg::IntRange { start: 1, end: EndBound::Included(5) }).unwrap();
    assert_eq!(inc.start, 1);
    assert_eq!(inc.end, 6);
    let exc = to_u32_range(RangeArg::IntRange { start: 1, end: EndBound::Excluded(5) }).unwrap();
    assert_eq!(exc.end, 5);
    let unb = to_u32_range(RangeArg::IntRange { start: 1, end: EndBound::Unbounded }).unwrap();
    assert_eq!(unb.end, 4294967295);
}

#[test]
fn canonicalization_rejects_non_integer_range() {
    let res = to_u32_range(RangeArg::OtherRange);
    assert!(matches!(res, Err(InputError::NotARange)));
}

#[test]
fn singleton_range_contains_n_not_n_plus_one() {
    let input = || {
        PipelineInput::RangeInput(
            RangeArg::IntRange { start: 5, end: EndBound::Excluded(6) },
            span(),
        )
    };
    let (hit, _) = ContainsCommand.run(input(), ValueArg::IntValue(5)).unwrap();
    assert!(hit);
    let (miss, _) = ContainsCommand.run(input(), ValueArg::IntValue(6)).unwrap();
    assert!(!miss);
}

#[test]
fn mixed_list_scenario() {
    let (n, sp) = LenCommand.run(mixed_list()).unwrap();
    assert_eq!(n, 8);
    assert_eq!(sp, span());

    let (values, _) = ListCommand.run(mixed_list(), None).unwrap();
    assert_eq!(values, vec![0, 1, 2, 10, 11, 12, 13, 14]);

    let arg = ValueArg::RangeValue(RangeArg::IntRange { start: 1, end: EndBound::Excluded(3) });
    let (contained, _) = ContainsCommand.run(mixed_list(), arg).unwrap();
    assert!(contained);

    let (has_five, _) = ContainsCommand.run(mixed_list(), ValueArg::IntValue(5)).unwrap();
    assert!(!has_five);
}

#[test]
fn duplicate_inserts_are_idempotent() {
    let input = || {
        PipelineInput::ListInput(
            vec![
                ListItem::IntItem(7),
                ListItem::IntItem(7),
                ListItem::RangeItem(RangeArg::IntRange { start: 3, end: EndBound::Excluded(5) }),
                ListItem::RangeItem(RangeArg::IntRange { start: 3, end: EndBound::Excluded(5) }),
            ],
            span(),
        )
    };
    let (n, _) = LenCommand.run(input()).unwrap();
    assert_eq!(n, 3);
    let (values, _) = ListCommand.run(input(), None).unwrap();
    assert_eq!(values, vec![3, 4, 7]);
}

#[test]
fn list_with_restricting_range_is_bounded_subsequence() {
    let input = || {
        PipelineInput::ListInput(
            vec![ListItem::IntItem(1), ListItem::IntItem(5), ListItem::IntItem(9)],
            span(),
        )
    };
    let arg = ValueArg::RangeValue(RangeArg::IntRange { start: 2, end: EndBound::Excluded(6) });
    let (values, _) = ListCommand.run(input(), Some(arg)).unwrap();
    assert_eq!(values, vec![5]);
}

#[test]
fn list_skips_non_numeric_elements() {
    let input = PipelineInput::ListInput(
        vec![ListItem::IntItem(4), ListItem::OtherItem, ListItem::IntItem(2)],
        span(),
    );
    let (values, _) = ListCommand.run(input, None).unwrap();
    assert_eq!(values, vec![2, 4]);
}

#[test]
fn list_rejects_non_integer_sub_range() {
    let input = PipelineInput::ListInput(
        vec![ListItem::IntItem(4), ListItem::RangeItem(RangeArg::OtherRange)],
        span(),
    );
    let res = LenCommand.run(input);
    assert!(matches!(res, Err(InputError::NotARange)));
}

#[test]
fn list_rejects_non_range_argument() {
    let res = ListCommand.run(mixed_list(), Some(ValueArg::IntValue(3)));
    assert!(matches!(res, Err(InputError::NotARange)));
}

#[test]
fn contains_rejects_non_numeric_argument() {
    let res = ContainsCommand.run(mixed_list(), ValueArg::OtherValue);
    assert!(matches!(res, Err(InputError::NotARange)));
}

#[test]
fn inverted_range_yields_empty_results() {
    let inverted = RangeArg::IntRange { start: 10, end: EndBound::Excluded(2) };
    let (n, _) = LenCommand.run(PipelineInput::RangeInput(inverted, span())).unwrap();
    assert_eq!(n, 0);

    let arg = ValueArg::RangeValue(inverted);
    let (values, _) = ListCommand.run(mixed_list(), Some(arg)).unwrap();
    assert_eq!(values, Vec::<u32>::new());

    let (vacuous, _) = ContainsCommand.run(mixed_list(), arg).unwrap();
    assert!(vacuous);
}

#[test]
fn negative_integers_truncate_to_low_bits() {
    let input = PipelineInput::ListInput(vec![ListItem::IntItem(-1)], span());
    let (values, _) = ListCommand.run(input, None).unwrap();
    assert_eq!(values, vec![4294967295]);
}

#[test]
fn handle_input_passes_through() {
    let (handle, _) = NewCommand.run(mixed_list()).unwrap();
    let (n, sp) = LenCommand
        .run(PipelineInput::HandleInput(handle, PipelineSpan { start: 1, end: 2 }))
        .unwrap();
    assert_eq!(n, 8);
    assert_eq!(sp, PipelineSpan { start: 1, end: 2 });
}

#[test]
fn cloned_handle_is_a_deep_equal_copy() {
    let (handle, _) = NewCommand.run(mixed_list()).unwrap();
    let copy = handle.clone();
    assert_eq!(handle.cardinality(), copy.cardinality());
    assert_eq!(handle.enumerate(None), copy.enumerate(None));
    assert_eq!(handle.tag_name(), "RoaringBitmap");
}

#[test]
fn unsupported_input_reports_observed_type() {
    let res = LenCommand.run(PipelineInput::OtherInput("date".to_string()));
    match res {
        Err(InputError::UnsupportedInput(name)) => assert_eq!(name, "date"),
        other => panic!("expected UnsupportedInput, got {:?}", other),
    }
}

#[test]
fn plugin_offers_five_commands() {
    let names = RoaringPlugin.commands();
    assert_eq!(
        names,
        vec!["roaring new", "roaring len", "roaring contains", "roaring list", "roaring ser"]
    );
    assert_eq!(NewCommand.name(), "roaring new");
    assert_eq!(LenCommand.name(), "roaring len");
    assert_eq!(ContainsCommand.name(), "roaring contains");
    assert_eq!(ListCommand.name(), "roaring list");
}
