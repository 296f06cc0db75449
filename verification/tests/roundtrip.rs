use nu_plugin_roaring::command::ValueArg;
use nu_plugin_roaring::error::InputError;
use nu_plugin_roaring::input::{ListItem, PipelineInput, PipelineSpan};
use nu_plugin_roaring::range::{EndBound, RangeArg};
use nu_plugin_roaring::{ContainsCommand, LenCommand, ListCommand, NewCommand, SerializeCommand};

fn span() -> PipelineSpan {
    PipelineSpan { start: 0, end: 4 }
}

fn million_range() -> PipelineInput {
    PipelineInput::RangeInput(
        RangeArg::IntRange { start: 0, end: EndBound::Excluded(1000000) },
        span(),
    )
}

fn serialized_million() -> Vec<u8> {
    let (handle, _) = NewCommand.run(million_range()).unwrap();
    let (bytes, _) = SerializeCommand.run(PipelineInput::HandleInput(handle, span())).unwrap();
    bytes
}

#[test]
fn million_element_round_trip() {
    let bytes = serialized_million();
    let (n, _) = LenCommand.run(PipelineInput::BinaryInput(bytes.clone(), span())).unwrap();
    assert_eq!(n, 1000000);

    let last = ValueArg::RangeValue(RangeArg::IntRange {
        start: 999999,
        end: EndBound::Excluded(1000000),
    });
    let (contained, _) =
        ContainsCommand.run(PipelineInput::BinaryInput(bytes.clone(), span()), last).unwrap();
    assert!(contained);

    let past = ValueArg::RangeValue(RangeArg::IntRange {
        start: 1000000,
        end: EndBound::Excluded(1000001),
    });
    let (absent, _) =
        ContainsCommand.run(PipelineInput::BinaryInput(bytes, span()), past).unwrap();
    assert!(!absent);
}

#[test]
fn round_trip_preserves_enumeration() {
    let source = || {
        PipelineInput::ListInput(
            vec![
                ListItem::IntItem(2),
                ListItem::IntItem(900000),
                ListItem::IntItem(17),
            ],
            span(),
        )
    };
    let (handle, _) = NewCommand.run(source()).unwrap();
    let (before, _) = ListCommand.run(PipelineInput::HandleInput(handle, span()), None).unwrap();

    let (handle, _) = NewCommand.run(source()).unwrap();
    let (bytes, _) = SerializeCommand.run(PipelineInput::HandleInput(handle, span())).unwrap();
    let (after, _) = ListCommand.run(PipelineInput::BinaryInput(bytes, span()), None).unwrap();
    assert_eq!(before, after);
    assert_eq!(after, vec![2, 17, 900000]);
}

#[test]
fn serialize_round_trips_byte_for_byte() {
    let bytes = serialized_million();
    let (handle, _) = NewCommand.run(PipelineInput::BinaryInput(bytes.clone(), span())).unwrap();
    let (again, _) = SerializeCommand.run(PipelineInput::HandleInput(handle, span())).unwrap();
    assert_eq!(bytes, again);
}

#[test]
fn handle_coerces_to_its_encoding() {
    let (handle, _) = NewCommand.run(million_range()).unwrap();
    let base = handle.to_base_value();
    let (bytes, _) = SerializeCommand.run(PipelineInput::HandleInput(handle, span())).unwrap();
    assert_eq!(base, bytes);
}

#[test]
fn stream_input_decodes_like_binary() {
    let bytes = serialized_million();
    let (n, _) = LenCommand.run(PipelineInput::StreamInput(Some(bytes), span())).unwrap();
    assert_eq!(n, 1000000);
}

#[test]
fn stream_without_reader_is_unavailable() {
    let res = LenCommand.run(PipelineInput::StreamInput(None, span()));
    assert!(matches!(res, Err(InputError::StreamUnavailable)));
}

#[test]
fn malformed_bytes_fail_with_decode_error() {
    let junk = vec![1u8, 2, 3];
    assert!(matches!(
        NewCommand.run(PipelineInput::BinaryInput(junk.clone(), span())),
        Err(InputError::DecodeFailed(_))
    ));
    assert!(matches!(
        LenCommand.run(PipelineInput::BinaryInput(junk.clone(), span())),
        Err(InputError::DecodeFailed(_))
    ));
    assert!(matches!(
        ListCommand.run(PipelineInput::BinaryInput(junk.clone(), span()), None),
        Err(InputError::DecodeFailed(_))
    ));
    assert!(matches!(
        ContainsCommand.run(PipelineInput::BinaryInput(junk.clone(), span()), ValueArg::IntValue(1)),
        Err(InputError::DecodeFailed(_))
    ));
    assert!(matches!(
        LenCommand.run(PipelineInput::StreamInput(Some(junk), span())),
        Err(InputError::DecodeFailed(_))
    ));
}

#[test]
fn serialize_rejects_anything_but_a_handle() {
    let res = SerializeCommand.run(million_range());
    assert!(matches!(res, Err(InputError::WrongInputType(_))));
    let res = SerializeCommand.run(PipelineInput::BinaryInput(vec![1, 2, 3], span()));
    assert!(matches!(res, Err(InputError::WrongInputType(_))));
}
