use hello_ocrs::error::{ModelRole, PipelineError, Stage};
use hello_ocrs::filter::RecognizedLine;
use hello_ocrs::models::ModelRead;
use hello_ocrs::picture::{Decoded, Image, ImageRead};
use hello_ocrs::pipeline::{Need, Pipeline, Supply};
use hello_ocrs::run::Run;

// A model file is written out by hand here: the ONNX format is a Protocol
// Buffers message.

fn varint(mut value: u64) -> Vec<u8> {
    let mut bytes = Vec::new();
    loop {
        let low = (value & 0x7f) as u8;
        value >>= 7;
        if value == 0 {
            bytes.push(low);
            return bytes;
        }
        bytes.push(low | 0x80);
    }
}

fn number(field: u64, value: u64) -> Vec<u8> {
    let mut bytes = varint(field << 3);
    bytes.extend(varint(value));
    bytes
}

fn nested(field: u64, payload: &[u8]) -> Vec<u8> {
    let mut bytes = varint((field << 3) | 2);
    bytes.extend(varint(payload.len() as u64));
    bytes.extend_from_slice(payload);
    bytes
}

fn text(field: u64, value: &str) -> Vec<u8> {
    nested(field, value.as_bytes())
}

enum Dim {
    Fixed(u64),
    Named(&'static str),
}

fn float_tensor_type(dims: &[Dim]) -> Vec<u8> {
    let mut shape = Vec::new();
    for dim in dims {
        let dim = match dim {
            Dim::Fixed(size) => number(1, *size),
            Dim::Named(name) => text(2, name),
        };
        shape.extend(nested(1, &dim));
    }
    let mut tensor = number(1, 1);
    tensor.extend(nested(2, &shape));
    nested(1, &tensor)
}

fn value_info(name: &str, dims: &[Dim]) -> Vec<u8> {
    let mut info = text(1, name);
    info.extend(nested(2, &float_tensor_type(dims)));
    info
}

fn identity_node(input: &str, output: &str) -> Vec<u8> {
    let mut node = text(1, input);
    node.extend(text(2, output));
    node.extend(text(3, "copy"));
    node.extend(text(4, "Identity"));
    node
}

fn model(graph: &[u8]) -> Vec<u8> {
    let mut opset = text(1, "");
    opset.extend(number(2, 13));
    let mut bytes = number(1, 7);
    bytes.extend(nested(7, graph));
    bytes.extend(nested(8, &opset));
    bytes
}

/// A model whose output is its input, for images of 64 by 64 pixels.
fn identity_model() -> Vec<u8> {
    let dims = [Dim::Fixed(1), Dim::Fixed(1), Dim::Fixed(64), Dim::Fixed(64)];
    let mut graph = nested(1, &identity_node("x", "y"));
    graph.extend(text(2, "identity"));
    graph.extend(nested(11, &value_info("x", &dims)));
    graph.extend(nested(12, &value_info("y", &dims)));
    model(&graph)
}

/// A model without inputs.
fn model_without_inputs() -> Vec<u8> {
    model(&text(2, "empty"))
}

/// A recognition model that reads the same labels whatever it is shown: one
/// line at a time, four steps, the labels of `labels` at the first of them.
fn constant_recognizer(labels: &[usize]) -> Vec<u8> {
    let steps = 4;
    let classes = 97;
    let mut data = Vec::new();
    for step in 0..steps {
        let chosen = if step < labels.len() { labels[step] } else { 0 };
        for class in 0..classes {
            let score: f32 = if class == chosen { 0.0 } else { -10.0 };
            data.extend_from_slice(&score.to_le_bytes());
        }
    }
    let mut tensor = number(1, steps as u64);
    tensor.extend(number(1, 1));
    tensor.extend(number(1, classes as u64));
    tensor.extend(number(2, 1));
    tensor.extend(text(8, "scores"));
    tensor.extend(nested(9, &data));
    let input = [Dim::Named("n"), Dim::Fixed(1), Dim::Fixed(64), Dim::Named("w")];
    let output = [Dim::Fixed(steps as u64), Dim::Fixed(1), Dim::Fixed(classes as u64)];
    let mut graph = nested(1, &identity_node("scores", "y"));
    graph.extend(text(2, "constant"));
    graph.extend(nested(5, &tensor));
    graph.extend(nested(11, &value_info("x", &input)));
    graph.extend(nested(12, &value_info("y", &output)));
    model(&graph)
}

// The position of a character in the engine's alphabet, plus one.
const LABEL_UPPER_H: usize = 52;
const LABEL_UPPER_I: usize = 53;
const LABEL_LOWER_I: usize = 79;

fn png(width: u32, height: u32, pixels: Vec<u8>) -> Vec<u8> {
    let rgb = image::RgbImage::from_raw(width, height, pixels).unwrap();
    let mut bytes = Vec::new();
    image::DynamicImage::ImageRgb8(rgb)
        .write_to(&mut std::io::Cursor::new(&mut bytes), image::ImageFormat::Png)
        .unwrap();
    bytes
}

/// A black image of 64 by 64 pixels.
fn black_page() -> Vec<u8> {
    png(64, 64, vec![0; 3 * 64 * 64])
}

/// A black image of 64 by 64 pixels with one white block in it.
fn page_with_a_block() -> Vec<u8> {
    let mut pixels = vec![0u8; 3 * 64 * 64];
    for y in 20..40 {
        for x in 10..50 {
            for channel in 0..3 {
                pixels[3 * (64 * y + x) + channel] = 255;
            }
        }
    }
    png(64, 64, pixels)
}

/// What a driver makes of the contents of a model file.
fn parsed(contents: Vec<u8>) -> ModelRead {
    Some(rten::Model::load(contents).map_err(|error| error.to_string()))
}

/// What a driver makes of the contents of a PNG file.
fn decoded(contents: Vec<u8>) -> ImageRead {
    let read = image::load_from_memory_with_format(&contents, image::ImageFormat::Png);
    Some(
        read.map(|picture| {
            let rgb = picture.into_rgb8();
            Decoded { width: rgb.width(), height: rgb.height(), pixels: rgb.into_raw() }
        })
        .map_err(|error| error.to_string()),
    )
}

/// The files of a run.
struct Files {
    detection: Option<Vec<u8>>,
    recognition: Option<Vec<u8>>,
    image_path: String,
    image: Option<Vec<u8>>,
}

fn files(recognizer: Vec<u8>, page: Option<Vec<u8>>) -> Files {
    Files {
        detection: Some(identity_model()),
        recognition: Some(recognizer),
        image_path: "page.png".to_string(),
        image: page,
    }
}

/// The engine's answer, where the next step is owed one.
fn engine_answer(state: &Pipeline) -> Supply {
    match (state.need(), state) {
        (Need::Words, Pipeline::InputPrepared { engine, input }) => {
            Supply::Words(engine.detect_words(input).map_err(|error| error.to_string()))
        }
        (Need::Texts, Pipeline::LinesGrouped { engine, input, lines, .. }) => Supply::Texts(
            engine
                .recognize_text(input, lines)
                .map(|found| {
                    found.into_iter().map(|line| line.map(|text| text.to_string())).collect()
                })
                .map_err(|error| error.to_string()),
        ),
        _ => Supply::Nothing,
    }
}

/// One step, with the engine making its answer where one is owed.
fn step(state: Pipeline, min_chars: usize) -> Pipeline {
    let answer = engine_answer(&state);
    state.advance(answer, min_chars)
}

/// A whole run, as a driver makes it.
fn run(files: Files, min_chars: usize) -> Pipeline {
    let Files { detection, recognition, image_path, image } = files;
    let mut state = Pipeline::new();
    let models = Supply::ModelFiles {
        detection: detection.and_then(parsed),
        recognition: recognition.and_then(parsed),
    };
    state = state.advance(models, min_chars);
    let page = Supply::ImageFile { path: image_path, read: image.and_then(decoded) };
    state = state.advance(page, min_chars);
    while !state.is_terminal() {
        state = step(state, min_chars);
    }
    state
}

fn models_loaded(recognizer: Vec<u8>) -> Pipeline {
    let supply = Supply::ModelFiles {
        detection: parsed(identity_model()),
        recognition: parsed(recognizer),
    };
    Pipeline::new().advance(supply, 1)
}

fn image_supply(page: Vec<u8>) -> Supply {
    Supply::ImageFile { path: "page.png".to_string(), read: decoded(page) }
}

fn line(text: &str, source: usize) -> RecognizedLine {
    RecognizedLine { text: text.to_string(), source }
}

#[test]
fn a_new_run_is_at_start() {
    let run = Pipeline::new();
    assert!(matches!(run, Pipeline::Start));
    assert!(!run.is_terminal());
    assert_eq!(run.need(), Need::ModelFiles);
    assert_eq!(run.announcement(), Some("Loading models.."));
    assert!(run.output().is_none());
    assert!(run.error().is_none());
}

#[test]
fn missing_detection_model_comes_first() {
    let supply = Supply::ModelFiles { detection: None, recognition: None };
    let next = Pipeline::new().advance(supply, 1);
    assert_eq!(next.error(), Some(&PipelineError::ModelNotFound { role: ModelRole::Detection }));
    assert!(next.is_terminal());
    assert_eq!(next.announcement(), None);
    assert_eq!(next.need(), Need::Nothing);
}

#[test]
fn corrupt_detection_model_comes_before_a_missing_recognition_model() {
    let supply = Supply::ModelFiles { detection: parsed(vec![1, 2, 3]), recognition: None };
    let next = Pipeline::new().advance(supply, 1);
    assert!(matches!(
        next.error(),
        Some(PipelineError::ModelCorrupt { role: ModelRole::Detection, .. })
    ));
}

#[test]
fn missing_recognition_model_fails_the_run() {
    let supply = Supply::ModelFiles { detection: parsed(identity_model()), recognition: None };
    let next = Pipeline::new().advance(supply, 1);
    assert_eq!(next.error(), Some(&PipelineError::ModelNotFound { role: ModelRole::Recognition }));
}

#[test]
fn corrupt_recognition_model_fails_the_run() {
    let supply = Supply::ModelFiles {
        detection: parsed(identity_model()),
        recognition: parsed(vec![0; 16]),
    };
    let next = Pipeline::new().advance(supply, 1);
    assert!(matches!(
        next.error(),
        Some(PipelineError::ModelCorrupt { role: ModelRole::Recognition, .. })
    ));
}

#[test]
fn files_that_are_not_supplied_count_as_missing() {
    let next = Pipeline::new().advance(Supply::Nothing, 1);
    assert_eq!(next.error(), Some(&PipelineError::ModelNotFound { role: ModelRole::Detection }));
    let next = models_loaded(identity_model()).advance(Supply::Nothing, 1);
    assert_eq!(next.error(), Some(&PipelineError::ImageNotFound { path: String::new() }));
}

#[test]
fn two_models_are_loaded() {
    let next = models_loaded(identity_model());
    assert!(matches!(next, Pipeline::ModelsLoaded { .. }));
    assert_eq!(next.need(), Need::ImageFile);
    assert_eq!(next.announcement(), Some("Starting engine.."));
}

#[test]
fn missing_image_fails_before_words_are_looked_for() {
    let mut announced = Vec::new();
    let mut state = Pipeline::new();
    while !state.is_terminal() {
        if let Some(message) = state.announcement() {
            announced.push(message);
        }
        let supply = match state.need() {
            Need::ModelFiles => Supply::ModelFiles {
                detection: parsed(identity_model()),
                recognition: parsed(identity_model()),
            },
            Need::ImageFile => Supply::ImageFile { path: "gone.png".to_string(), read: None },
            _ => engine_answer(&state),
        };
        state = state.advance(supply, 1);
    }
    assert_eq!(
        state.error(),
        Some(&PipelineError::ImageNotFound { path: "gone.png".to_string() })
    );
    assert_eq!(announced, vec!["Loading models..", "Starting engine.."]);
    assert!(!announced.contains(&"Detecting words.."));
    assert!(state.output().is_none());
}

#[test]
fn models_that_make_no_engine_fail_before_the_image_is_looked_at() {
    let supply = Supply::ModelFiles {
        detection: parsed(model_without_inputs()),
        recognition: parsed(identity_model()),
    };
    let state = Pipeline::new().advance(supply, 1);
    assert!(matches!(state, Pipeline::ModelsLoaded { .. }));
    let next = state.advance(Supply::ImageFile { path: "gone.png".to_string(), read: None }, 1);
    assert_eq!(
        next.error(),
        Some(&PipelineError::Inference {
            stage: Stage::Engine,
            detail: "model has no inputs".to_string(),
        })
    );
}

#[test]
fn undecodable_image_fails_the_run() {
    let next = models_loaded(identity_model()).advance(image_supply(vec![9; 20]), 1);
    assert!(matches!(
        next.error(),
        Some(PipelineError::ImageDecode { path, .. }) if path == "page.png"
    ));
}

#[test]
fn image_without_words_is_done_with_no_output() {
    let end = run(files(identity_model(), Some(black_page())), 1);
    match &end {
        Pipeline::Done { kept, line_count, word_count } => {
            assert!(kept.is_empty());
            assert_eq!((*line_count, *word_count), (0, 0));
        }
        _ => panic!("expected a run that is done"),
    }
    assert_eq!(end.output(), Some(Vec::new()));
    assert!(end.error().is_none());
    assert!(end.is_terminal());
}

#[test]
fn every_stage_is_announced_in_order() {
    let mut announced = Vec::new();
    let mut stages = 0;
    let mut state = Pipeline::new();
    while !state.is_terminal() {
        if let Some(message) = state.announcement() {
            announced.push(message);
        }
        let supply = match state.need() {
            Need::ModelFiles => Supply::ModelFiles {
                detection: parsed(identity_model()),
                recognition: parsed(identity_model()),
            },
            Need::ImageFile => image_supply(black_page()),
            _ => engine_answer(&state),
        };
        state = state.advance(supply, 1);
        stages += 1;
    }
    assert_eq!(stages, 7);
    assert!(matches!(state, Pipeline::Done { .. }));
    assert_eq!(
        announced,
        vec![
            "Loading models..",
            "Starting engine..",
            "Detecting words..",
            "Finding text lines..",
            "Recognizing text..",
        ]
    );
}

#[test]
fn stages_come_one_after_the_other() {
    let state = models_loaded(constant_recognizer(&[LABEL_UPPER_H, LABEL_LOWER_I]));
    let state = state.advance(image_supply(page_with_a_block()), 1);
    match &state {
        Pipeline::ImageLoaded { image, .. } => {
            assert_eq!((image.width(), image.height()), (64, 64));
        }
        _ => panic!("expected a decoded image"),
    }
    assert_eq!(state.announcement(), None);
    let state = step(state, 1);
    assert!(matches!(state, Pipeline::InputPrepared { .. }));
    let state = step(state, 1);
    match &state {
        Pipeline::WordsDetected { words, .. } => assert_eq!(words.len(), 1),
        _ => panic!("expected words"),
    }
    let state = step(state, 1);
    match &state {
        Pipeline::LinesGrouped { lines, word_count, .. } => {
            assert_eq!(lines.len(), 1);
            assert_eq!(lines[0].len(), 1);
            assert_eq!(*word_count, 1);
        }
        _ => panic!("expected lines"),
    }
    let state = step(state, 1);
    match &state {
        Pipeline::TextRecognized { recognized, word_count } => {
            assert_eq!(recognized, &vec![Some(line("Hi", 0))]);
            assert_eq!(*word_count, 1);
        }
        _ => panic!("expected text"),
    }
    let state = step(state, 1);
    match &state {
        Pipeline::Done { kept, line_count, word_count } => {
            assert_eq!(kept, &vec![line("Hi", 0)]);
            assert_eq!((*line_count, *word_count), (1, 1));
        }
        _ => panic!("expected a run that is done"),
    }
    assert_eq!(state.output(), Some(vec!["Hi".to_string()]));
}

#[test]
fn single_character_is_recognized_and_not_in_the_output() {
    let mut state = models_loaded(constant_recognizer(&[LABEL_UPPER_I]));
    state = state.advance(image_supply(page_with_a_block()), 1);
    while !matches!(state, Pipeline::TextRecognized { .. }) {
        assert!(!state.is_terminal());
        state = step(state, 1);
    }
    match &state {
        Pipeline::TextRecognized { recognized, .. } => {
            assert_eq!(recognized, &vec![Some(line("I", 0))]);
        }
        _ => unreachable!(),
    }
    let done = step(state, 1);
    assert_eq!(done.output(), Some(Vec::new()));
    match done {
        Pipeline::Done { kept, line_count, word_count } => {
            assert!(kept.is_empty());
            assert_eq!((line_count, word_count), (1, 1));
        }
        _ => panic!("expected a run that is done"),
    }
}

#[test]
fn the_threshold_decides_what_is_in_the_output() {
    let end = run(files(constant_recognizer(&[LABEL_UPPER_I]), Some(page_with_a_block())), 0);
    assert_eq!(end.output(), Some(vec!["I".to_string()]));
    let end = run(
        files(constant_recognizer(&[LABEL_UPPER_H, LABEL_LOWER_I]), Some(page_with_a_block())),
        2,
    );
    assert_eq!(end.output(), Some(Vec::new()));
}

#[test]
fn a_line_without_text_is_absent() {
    let mut state = models_loaded(constant_recognizer(&[]));
    state = state.advance(image_supply(page_with_a_block()), 1);
    while !matches!(state, Pipeline::TextRecognized { .. }) {
        assert!(!state.is_terminal());
        state = step(state, 1);
    }
    match &state {
        Pipeline::TextRecognized { recognized, .. } => assert_eq!(recognized, &vec![None]),
        _ => unreachable!(),
    }
    assert_eq!(step(state, 1).output(), Some(Vec::new()));
}

#[test]
fn a_recognizer_with_the_wrong_output_fails_at_recognize() {
    let end = run(files(identity_model(), Some(page_with_a_block())), 1);
    assert!(matches!(
        end.error(),
        Some(PipelineError::Inference { stage: Stage::Recognize, .. })
    ));
    assert!(end.output().is_none());
}

#[test]
fn a_run_without_models_ends_failed() {
    let end = run(
        Files { detection: None, recognition: None, image_path: String::new(), image: None },
        1,
    );
    assert_eq!(end.error(), Some(&PipelineError::ModelNotFound { role: ModelRole::Detection }));
}

#[test]
fn a_run_that_is_over_stays_as_it_is() {
    let failed = Pipeline::Failed { error: PipelineError::ImageNotFound { path: "x".to_string() } };
    let next = failed.advance(image_supply(black_page()), 1);
    assert_eq!(next.error(), Some(&PipelineError::ImageNotFound { path: "x".to_string() }));
    let done = Pipeline::Done { kept: vec![line("text", 0)], line_count: 2, word_count: 5 };
    match done.advance(Supply::Nothing, 9) {
        Pipeline::Done { kept, line_count, word_count } => {
            assert_eq!(kept, vec![line("text", 0)]);
            assert_eq!((line_count, word_count), (2, 5));
        }
        _ => panic!("expected a run that is done"),
    }
}

#[test]
fn an_image_without_pixels_fails_at_prepare() {
    let engine = ocrs::OcrEngine::new(ocrs::OcrEngineParams::default()).unwrap();
    let image = Image::new(0, 0, Vec::new()).unwrap();
    let next = Pipeline::ImageLoaded { engine, image }.advance(Supply::Nothing, 1);
    assert_eq!(
        next.error(),
        Some(&PipelineError::Inference {
            stage: Stage::Prepare,
            detail: "the image has no pixels".to_string(),
        })
    );
}

#[test]
fn detection_without_a_model_fails_at_detect() {
    let engine = ocrs::OcrEngine::new(ocrs::OcrEngineParams::default()).unwrap();
    let image = Image::new(2, 2, vec![0; 12]).unwrap();
    let state = Pipeline::ImageLoaded { engine, image }.advance(Supply::Nothing, 1);
    assert!(matches!(state, Pipeline::InputPrepared { .. }));
    assert_eq!(state.need(), Need::Words);
    let state = step(state, 1);
    assert_eq!(
        state.error(),
        Some(&PipelineError::Inference {
            stage: Stage::Detect,
            detail: "Detection model not loaded".to_string(),
        })
    );
}

#[test]
fn a_step_without_the_answer_it_is_owed_fails() {
    let engine = ocrs::OcrEngine::new(ocrs::OcrEngineParams::default()).unwrap();
    let image = Image::new(2, 2, vec![0; 12]).unwrap();
    let state = Pipeline::ImageLoaded { engine, image }.advance(Supply::Nothing, 1);
    let state = state.advance(Supply::Nothing, 1);
    assert_eq!(
        state.error(),
        Some(&PipelineError::Inference {
            stage: Stage::Detect,
            detail: "no answer was given".to_string(),
        })
    );
    let mut state = models_loaded(identity_model());
    state = state.advance(image_supply(page_with_a_block()), 1);
    while !matches!(state, Pipeline::LinesGrouped { .. }) {
        state = step(state, 1);
    }
    assert_eq!(state.need(), Need::Texts);
    let state = state.advance(Supply::Words(Ok(Vec::new())), 1);
    assert_eq!(
        state.error(),
        Some(&PipelineError::Inference {
            stage: Stage::Recognize,
            detail: "no answer was given".to_string(),
        })
    );
}

#[test]
fn answers_of_the_engine_are_taken_as_they_are() {
    let engine = ocrs::OcrEngine::new(ocrs::OcrEngineParams::default()).unwrap();
    let image = Image::new(2, 2, vec![0; 12]).unwrap();
    let prepared = Pipeline::ImageLoaded { engine, image }.advance(Supply::Nothing, 1);
    let failed = prepared.advance(Supply::Words(Err("out of memory".to_string())), 1);
    assert_eq!(
        failed.error(),
        Some(&PipelineError::Inference {
            stage: Stage::Detect,
            detail: "out of memory".to_string(),
        })
    );
    let mut state = models_loaded(identity_model());
    state = state.advance(image_supply(page_with_a_block()), 1);
    while !matches!(state, Pipeline::LinesGrouped { .. }) {
        state = step(state, 1);
    }
    let read = state.advance(Supply::Texts(Ok(vec![Some("Hello".to_string())])), 1);
    assert!(matches!(
        &read,
        Pipeline::TextRecognized { recognized, word_count: 1 }
            if recognized == &vec![Some(line("Hello", 0))]
    ));
    let mut state = models_loaded(identity_model());
    state = state.advance(image_supply(page_with_a_block()), 1);
    while !matches!(state, Pipeline::LinesGrouped { .. }) {
        state = step(state, 1);
    }
    let failed = state.advance(Supply::Texts(Err("no memory".to_string())), 1);
    assert_eq!(
        failed.error(),
        Some(&PipelineError::Inference {
            stage: Stage::Recognize,
            detail: "no memory".to_string(),
        })
    );
    let mut state = models_loaded(identity_model());
    state = state.advance(image_supply(page_with_a_block()), 1);
    while !matches!(state, Pipeline::LinesGrouped { .. }) {
        state = step(state, 1);
    }
    let failed = state.advance(Supply::Texts(Ok(Vec::new())), 1);
    assert_eq!(
        failed.error(),
        Some(&PipelineError::Inference {
            stage: Stage::Recognize,
            detail: "the answer does not match the lines".to_string(),
        })
    );
}

#[test]
fn no_lines_need_no_reading() {
    let engine = ocrs::OcrEngine::new(ocrs::OcrEngineParams::default()).unwrap();
    let image = Image::new(2, 2, vec![0; 12]).unwrap();
    let input = hello_ocrs::engine::prepare(&engine, &image).unwrap();
    let state = Pipeline::after_detect(engine, input, Ok(Vec::new()));
    let state = state.advance(Supply::Nothing, 1);
    assert!(matches!(&state, Pipeline::LinesGrouped { lines, .. } if lines.is_empty()));
    assert_eq!(state.need(), Need::Nothing);
    let state = state.advance(Supply::Nothing, 1);
    assert!(matches!(
        &state,
        Pipeline::TextRecognized { recognized, word_count: 0 } if recognized.is_empty()
    ));
    let state = state.advance(Supply::Nothing, 1);
    assert_eq!(state.output(), Some(Vec::new()));
}

#[test]
fn words_out_of_reach_fail_at_group() {
    let engine = ocrs::OcrEngine::new(ocrs::OcrEngineParams::default()).unwrap();
    let image = Image::new(2, 2, vec![0; 12]).unwrap();
    let input = hello_ocrs::engine::prepare(&engine, &image).unwrap();
    let near = rten_imageproc::RectF::from_tlhw(10.0, 10.0, 20.0, 60.0);
    let far = rten_imageproc::RectF::from_tlhw(10.0, 1.0e9, 20.0, 60.0);
    let words = vec![
        rten_imageproc::RotatedRect::from_rect(near),
        rten_imageproc::RotatedRect::from_rect(far),
    ];
    let state = Pipeline::after_detect(engine, input, Ok(words));
    let state = state.advance(Supply::Nothing, 1);
    assert_eq!(
        state.error(),
        Some(&PipelineError::Inference {
            stage: Stage::Group,
            detail: "the words take up too large a page".to_string(),
        })
    );
}

#[test]
fn after_models_reports_the_detection_model_first() {
    let detection = PipelineError::ModelNotFound { role: ModelRole::Detection };
    let recognition = PipelineError::ModelNotFound { role: ModelRole::Recognition };
    let next = Pipeline::after_models(Err(detection.clone()), Err(recognition.clone()));
    assert_eq!(next.error(), Some(&detection));
    let model = rten::Model::load(identity_model()).unwrap();
    let next = Pipeline::after_models(Ok(model), Err(recognition.clone()));
    assert_eq!(next.error(), Some(&recognition));
}

#[test]
fn after_image_and_after_prepare_pass_errors_on() {
    let engine = ocrs::OcrEngine::new(ocrs::OcrEngineParams::default()).unwrap();
    let error = PipelineError::ImageNotFound { path: "p".to_string() };
    assert_eq!(Pipeline::after_image(engine, Err(error.clone())).error(), Some(&error));
    let engine = ocrs::OcrEngine::new(ocrs::OcrEngineParams::default()).unwrap();
    let error = PipelineError::Inference { stage: Stage::Prepare, detail: "d".to_string() };
    assert_eq!(Pipeline::after_prepare(engine, Err(error.clone())).error(), Some(&error));
}

#[test]
fn after_detect_accepts_no_words() {
    let engine = ocrs::OcrEngine::new(ocrs::OcrEngineParams::default()).unwrap();
    let image = Image::new(2, 2, vec![0; 12]).unwrap();
    let input = hello_ocrs::engine::prepare(&engine, &image).unwrap();
    let state = Pipeline::after_detect(engine, input, Ok(Vec::new()));
    assert!(matches!(&state, Pipeline::WordsDetected { words, .. } if words.is_empty()));
    assert_eq!(state.announcement(), Some("Finding text lines.."));
    let state = state.advance(Supply::Nothing, 1);
    assert!(matches!(
        &state,
        Pipeline::LinesGrouped { lines, word_count: 0, .. } if lines.is_empty()
    ));
    assert_eq!(state.announcement(), Some("Recognizing text.."));
}

#[test]
fn after_group_refuses_lines_that_do_not_hold_the_words() {
    let engine = ocrs::OcrEngine::new(ocrs::OcrEngineParams::default()).unwrap();
    let image = Image::new(2, 2, vec![0; 12]).unwrap();
    let input = hello_ocrs::engine::prepare(&engine, &image).unwrap();
    let next = Pipeline::after_group(engine, input, 3, vec![Vec::new()]);
    assert_eq!(
        next.error(),
        Some(&PipelineError::Inference {
            stage: Stage::Group,
            detail: "the lines do not hold the words".to_string(),
        })
    );
}

#[test]
fn after_recognize_names_the_line_groups() {
    let found = vec![Some("first".to_string()), None, Some("I".to_string())];
    let state = Pipeline::after_recognize(3, 4, Ok(found));
    match &state {
        Pipeline::TextRecognized { recognized, word_count } => {
            assert_eq!(recognized, &vec![Some(line("first", 0)), None, Some(line("I", 2))]);
            assert_eq!(*word_count, 4);
        }
        _ => panic!("expected text"),
    }
    let done = state.advance(Supply::Nothing, 1);
    assert_eq!(done.output(), Some(vec!["first".to_string()]));
}

#[test]
fn after_recognize_refuses_an_answer_of_the_wrong_length() {
    let next = Pipeline::after_recognize(2, 2, Ok(vec![None]));
    assert_eq!(
        next.error(),
        Some(&PipelineError::Inference {
            stage: Stage::Recognize,
            detail: "the answer does not match the lines".to_string(),
        })
    );
    let error = PipelineError::Inference { stage: Stage::Recognize, detail: "d".to_string() };
    assert_eq!(Pipeline::after_recognize(2, 2, Err(error.clone())).error(), Some(&error));
}

#[test]
fn after_filter_counts_lines_and_words() {
    let recognized = vec![Some(line("I", 0)), Some(line("It is", 1)), None];
    match Pipeline::after_filter(&recognized, 5, 1) {
        Pipeline::Done { kept, line_count, word_count } => {
            assert_eq!(kept, vec![line("It is", 1)]);
            assert_eq!((line_count, word_count), (3, 5));
            assert!(kept.len() <= line_count && line_count <= word_count);
        }
        _ => panic!("expected a run that is done"),
    }
}

#[test]
fn a_timed_run_reports_its_seconds_when_done() {
    let mut timed = Run::begin(1);
    assert!(matches!(timed.state(), Pipeline::Start));
    assert_eq!(timed.elapsed_seconds(), None);
    while !timed.state().is_terminal() {
        let supply = match timed.state().need() {
            Need::ModelFiles => Supply::ModelFiles {
                detection: parsed(identity_model()),
                recognition: parsed(identity_model()),
            },
            Need::ImageFile => image_supply(black_page()),
            _ => engine_answer(timed.state()),
        };
        timed = timed.step(supply);
        if !timed.state().is_terminal() {
            assert_eq!(timed.elapsed_seconds(), None);
        }
    }
    assert!(matches!(timed.state(), Pipeline::Done { .. }));
    let seconds = timed.elapsed_seconds().unwrap();
    assert!((0..20).contains(&seconds));
    let again = timed.step(Supply::Nothing);
    assert_eq!(again.elapsed_seconds(), Some(seconds));
}

#[test]
fn a_timed_run_that_fails_reports_no_seconds() {
    let timed = Run::begin(1).step(Supply::Nothing);
    assert!(matches!(timed.state(), Pipeline::Failed { .. }));
    assert_eq!(timed.elapsed_seconds(), None);
}

#[test]
fn an_engine_started_from_two_models_detects() {
    let detection = rten::Model::load(identity_model()).unwrap();
    let recognition = rten::Model::load(identity_model()).unwrap();
    let engine = hello_ocrs::engine::start_engine(detection, recognition).unwrap();
    let image = Image::new(64, 64, vec![0; 3 * 64 * 64]).unwrap();
    let state = Pipeline::ImageLoaded { engine, image }.advance(Supply::Nothing, 1);
    let state = step(state, 1);
    assert!(matches!(&state, Pipeline::WordsDetected { words, .. } if words.is_empty()));
}

#[test]
fn start_engine_gives_the_engine_s_reason() {
    let detection = rten::Model::load(model_without_inputs()).unwrap();
    let recognition = rten::Model::load(identity_model()).unwrap();
    assert_eq!(
        hello_ocrs::engine::start_engine(detection, recognition).err(),
        Some(PipelineError::Inference {
            stage: Stage::Engine,
            detail: "model has no inputs".to_string(),
        })
    );
    let detection = rten::Model::load(identity_model()).unwrap();
    let recognition = rten::Model::load(model_without_inputs()).unwrap();
    assert!(matches!(
        hello_ocrs::engine::start_engine(detection, recognition),
        Err(PipelineError::Inference { stage: Stage::Engine, .. })
    ));
}

#[test]
fn a_parsed_model_is_loaded_as_it_is() {
    let model = rten::Model::load(identity_model()).unwrap();
    assert!(hello_ocrs::models::load_model(ModelRole::Detection, Some(Ok(model))).is_ok());
}
