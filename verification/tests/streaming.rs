use arrow::array::{ArrayRef, Int32Array, RecordBatch, RecordBatchWriter, StringArray};
use arrow::csv::Writer;
use arrow::datatypes::{DataType, Field, Schema};
use arrow::ipc::reader::StreamReader;
use arrow::ipc::writer::StreamWriter;
use arrow::json::ArrayWriter;
use std::io::Cursor;
use std::sync::{Arc, Mutex};
use uquery::bridge::{Action, Bridge, Event, StreamingOutcome};
use uquery::connection::setup_statements;
use uquery::error::{Body, Response, UQueryError};
use uquery::handler::{negotiate, respond};

/// An engine that answers from memory: the batches of its one result, or the
/// message it fails with at preparation.
struct Engine {
    schema: Arc<Schema>,
    batches: Vec<RecordBatch>,
    rejects: Option<String>,
}

/// A pipe that keeps what was written into it.
#[derive(Clone)]
struct Pipe(Arc<Mutex<Vec<u8>>>);

impl std::io::Write for Pipe {
    fn write(&mut self, buf: &[u8]) -> std::io::Result<usize> {
        self.0.lock().unwrap().extend_from_slice(buf);
        Ok(buf.len())
    }

    fn flush(&mut self) -> std::io::Result<()> {
        Ok(())
    }
}

enum Encoder {
    Csv(Writer<Pipe>),
    Json(ArrayWriter<Pipe>),
    Arrow(StreamWriter<Pipe>),
}

fn report(result: Result<(), arrow::error::ArrowError>) -> Event {
    match result {
        Ok(()) => Event::Done,
        Err(error) => Event::Failed(error.to_string()),
    }
}

/// Serves one request against the engine in memory: what the handler answers
/// with, the bytes that went through the pipe, and the statements run on the
/// connection. The outcome must be delivered once, before the first byte.
fn serve(
    engine: &Engine,
    accept: Option<&str>,
    attached: bool,
) -> (Result<Response, UQueryError>, Vec<u8>, Vec<String>) {
    let format = match negotiate(accept) {
        Ok(format) => format,
        Err(error) => return (Err(error), Vec::new(), Vec::new()),
    };
    let pipe = Pipe(Arc::new(Mutex::new(Vec::new())));
    let mut statements = Vec::new();
    let mut outcome = None;
    let mut encoder = None;
    let mut batches = engine.batches.iter();
    let mut bridge = Bridge::new(format, attached);
    let mut action = bridge.start();
    while !bridge.is_closed() {
        let event = match action {
            Action::Acquire { attached } => {
                statements = setup_statements(attached);
                Event::Done
            }
            Action::Prepare => match &engine.rejects {
                Some(message) => Event::Failed(message.clone()),
                None => Event::Done,
            },
            Action::Execute => Event::Done,
            Action::Resolve(delivered) => {
                assert!(outcome.is_none());
                assert!(pipe.0.lock().unwrap().is_empty());
                outcome = Some(delivered);
                Event::Done
            }
            Action::OpenEncoder(format) => {
                assert_eq!(outcome, Some(StreamingOutcome::Ready));
                match format {
                    uquery::format::QueryResponseFormat::CSV => {
                        encoder = Some(Encoder::Csv(Writer::new(pipe.clone())));
                        Event::Done
                    }
                    uquery::format::QueryResponseFormat::JSON => {
                        encoder = Some(Encoder::Json(ArrayWriter::new(pipe.clone())));
                        Event::Done
                    }
                    uquery::format::QueryResponseFormat::ARROW => {
                        match StreamWriter::try_new(pipe.clone(), &engine.schema) {
                            Ok(writer) => {
                                encoder = Some(Encoder::Arrow(writer));
                                Event::Done
                            }
                            Err(error) => Event::Failed(error.to_string()),
                        }
                    }
                }
            }
            Action::WriteBatch => match batches.next() {
                Some(batch) => report(match encoder.as_mut().unwrap() {
                    Encoder::Csv(writer) => writer.write(batch),
                    Encoder::Json(writer) => writer.write(batch),
                    Encoder::Arrow(writer) => writer.write(batch),
                }),
                None => Event::Exhausted,
            },
            Action::Finish => report(match encoder.take().unwrap() {
                Encoder::Csv(writer) => writer.close(),
                Encoder::Json(writer) => writer.close(),
                Encoder::Arrow(writer) => writer.close(),
            }),
            Action::Abort(_) => {
                encoder = None;
                Event::Done
            }
            Action::Stop => Event::Done,
        };
        action = bridge.step(event);
    }
    assert_eq!(action, Action::Stop);
    let bytes = pipe.0.lock().unwrap().clone();
    (respond(outcome.unwrap(), format), bytes, statements)
}

fn languages_schema() -> Arc<Schema> {
    Arc::new(Schema::new(vec![
        Field::new("Id", DataType::Int32, false),
        Field::new("Name", DataType::Utf8, false),
        Field::new("Description", DataType::Utf8, false),
    ]))
}

fn languages(rows: Vec<(i32, &str, &str)>) -> RecordBatch {
    let ids: Vec<i32> = rows.iter().map(|row| row.0).collect();
    let names: Vec<&str> = rows.iter().map(|row| row.1).collect();
    let descriptions: Vec<&str> = rows.iter().map(|row| row.2).collect();
    RecordBatch::try_new(
        languages_schema(),
        vec![
            Arc::new(Int32Array::from(ids)) as ArrayRef,
            Arc::new(StringArray::from(names)) as ArrayRef,
            Arc::new(StringArray::from(descriptions)) as ArrayRef,
        ],
    )
    .unwrap()
}

fn one_language() -> Engine {
    Engine {
        schema: languages_schema(),
        batches: vec![languages(vec![(1, "Rust", "desc")])],
        rejects: None,
    }
}

#[test]
fn one_row_as_json() {
    let (response, bytes, statements) = serve(&one_language(), Some("application/json"), false);
    let response = response.unwrap();
    assert_eq!(response.status_code, 200);
    assert_eq!(response.content_type, "application/json");
    assert_eq!(response.body, Body::Stream);
    assert_eq!(
        String::from_utf8(bytes).unwrap(),
        "[{\"Id\":1,\"Name\":\"Rust\",\"Description\":\"desc\"}]"
    );
    assert!(statements.is_empty());
}

#[test]
fn one_row_as_csv() {
    let (response, bytes, _) = serve(&one_language(), Some("text/csv"), false);
    let response = response.unwrap();
    assert_eq!(response.status_code, 200);
    assert_eq!(response.content_type, "text/csv");
    assert_eq!(String::from_utf8(bytes).unwrap(), "Id,Name,Description\n1,Rust,desc\n");
}

#[test]
fn one_row_as_csv_with_a_comma_in_it() {
    let engine = Engine {
        schema: languages_schema(),
        batches: vec![languages(vec![(
            1,
            "Rust",
            "Safe, concurrent, performant systems language",
        )])],
        rejects: None,
    };
    let (_, bytes, _) = serve(&engine, Some("text/csv"), false);
    assert_eq!(
        String::from_utf8(bytes).unwrap(),
        "Id,Name,Description\n1,Rust,\"Safe, concurrent, performant systems language\"\n"
    );
}

#[test]
fn one_row_as_arrow() {
    let (response, bytes, _) =
        serve(&one_language(), Some("application/vnd.apache.arrow.stream"), false);
    let response = response.unwrap();
    assert_eq!(response.status_code, 200);
    assert_eq!(response.content_type, "application/vnd.apache.arrow.stream");
    let reader = StreamReader::try_new(Cursor::new(bytes), None).unwrap();
    let read: Vec<RecordBatch> = reader.map(|batch| batch.unwrap()).collect();
    assert_eq!(read, vec![languages(vec![(1, "Rust", "desc")])]);
}

#[test]
fn batches_come_out_in_the_order_of_the_engine() {
    let engine = Engine {
        schema: languages_schema(),
        batches: vec![
            languages(vec![(1, "Rust", "a"), (2, "C", "b")]),
            languages(vec![(3, "Go", "c")]),
            languages(vec![(4, "Zig", "d"), (5, "Ada", "e")]),
        ],
        rejects: None,
    };
    let (_, bytes, _) = serve(&engine, Some("text/csv"), false);
    assert_eq!(
        String::from_utf8(bytes).unwrap(),
        "Id,Name,Description\n1,Rust,a\n2,C,b\n3,Go,c\n4,Zig,d\n5,Ada,e\n"
    );
    let (_, bytes, _) = serve(&engine, Some("application/vnd.apache.arrow.stream"), false);
    let reader = StreamReader::try_new(Cursor::new(bytes), None).unwrap();
    let read: Vec<RecordBatch> = reader.map(|batch| batch.unwrap()).collect();
    assert_eq!(read, engine.batches);
    let (_, bytes, _) = serve(&engine, Some("*/*"), false);
    let rows: serde_json::Value = serde_json::from_slice(&bytes).unwrap();
    let ids: Vec<i64> =
        rows.as_array().unwrap().iter().map(|row| row["Id"].as_i64().unwrap()).collect();
    assert_eq!(ids, vec![1, 2, 3, 4, 5]);
}

#[test]
fn the_same_query_twice_gives_the_same_bytes() {
    let engine = one_language();
    for accept in ["application/json", "text/csv", "application/vnd.apache.arrow.stream"] {
        let (_, first, _) = serve(&engine, Some(accept), true);
        let (_, second, _) = serve(&engine, Some(accept), true);
        assert!(!first.is_empty());
        assert_eq!(first, second);
    }
}

#[test]
fn an_empty_result_is_still_a_document() {
    let engine = Engine { schema: languages_schema(), batches: Vec::new(), rejects: None };
    let (response, bytes, _) = serve(&engine, Some("application/json"), false);
    assert_eq!(response.unwrap().status_code, 200);
    assert_eq!(String::from_utf8(bytes).unwrap(), "[]");
}

#[test]
fn a_bad_command_is_a_bad_request() {
    let engine = Engine {
        schema: languages_schema(),
        batches: Vec::new(),
        rejects: Some("Parser Error: syntax error at or near \"bad\"".to_string()),
    };
    let (response, bytes, _) = serve(&engine, Some("application/json"), false);
    assert!(bytes.is_empty());
    let response = response.unwrap_err().into_response();
    assert_eq!(response.status_code, 400);
    assert_eq!(response.content_type, "application/problem+json");
    assert_eq!(
        response.body,
        Body::Text(
            "{\"status\":400,\"title\":\"SQL Error\",\"detail\":\"Parser Error: syntax error at or near \\\"bad\\\"\"}"
                .to_string()
        )
    );
}

#[test]
fn html_is_not_acceptable() {
    let (response, bytes, _) = serve(&one_language(), Some("text/html"), false);
    assert!(bytes.is_empty());
    let response = response.unwrap_err().into_response();
    assert_eq!(response.status_code, 406);
    let body = match response.body {
        Body::Text(text) => text,
        Body::Stream => panic!("a problem document is a text"),
    };
    let document: serde_json::Value = serde_json::from_str(body.as_str()).unwrap();
    assert_eq!(document["status"].as_u64().unwrap(), 406);
}

#[test]
fn a_connection_uses_the_attached_database() {
    let (_, _, statements) = serve(&one_language(), Some("text/csv"), true);
    assert_eq!(statements, vec!["USE uquery_attached_db;".to_string()]);
    assert!(setup_statements(false).is_empty());
}

fn the_rust_row() -> Engine {
    Engine {
        schema: languages_schema(),
        batches: vec![languages(vec![(
            1,
            "Rust",
            "Safe, concurrent, performant systems language",
        )])],
        rejects: None,
    }
}

#[test]
fn the_rust_row_as_json() {
    let (response, bytes, _) = serve(&the_rust_row(), Some("application/json"), false);
    assert_eq!(response.unwrap().status_code, 200);
    assert_eq!(
        String::from_utf8(bytes).unwrap(),
        "[{\"Id\":1,\"Name\":\"Rust\",\"Description\":\"Safe, concurrent, performant systems language\"}]"
    );
}

#[test]
fn the_rust_row_as_arrow() {
    let (response, bytes, _) =
        serve(&the_rust_row(), Some("application/vnd.apache.arrow.stream"), false);
    assert_eq!(response.unwrap().status_code, 200);
    let mut reader = StreamReader::try_new(Cursor::new(bytes), None).unwrap();
    let batch = reader.next().unwrap().unwrap();
    assert!(reader.next().is_none());
    let id = batch.column_by_name("Id").unwrap().as_any().downcast_ref::<Int32Array>().unwrap();
    let name =
        batch.column_by_name("Name").unwrap().as_any().downcast_ref::<StringArray>().unwrap();
    let description = batch
        .column_by_name("Description")
        .unwrap()
        .as_any()
        .downcast_ref::<StringArray>()
        .unwrap();
    assert_eq!(id.value(0), 1);
    assert_eq!(name.value(0), "Rust");
    assert_eq!(description.value(0), "Safe, concurrent, performant systems language");
}

#[test]
fn a_bad_command_reads_back_as_a_problem() {
    let engine = Engine {
        schema: languages_schema(),
        batches: Vec::new(),
        rejects: Some("Parser Error: syntax error at or near \"bad\"".to_string()),
    };
    let (response, _, _) = serve(&engine, Some("application/json"), false);
    let response = response.unwrap_err().into_response();
    assert_eq!(response.status_code, 400);
    let body = match response.body {
        Body::Text(text) => text,
        Body::Stream => panic!("a problem document is a text"),
    };
    let error: serde_json::Value = serde_json::from_str(body.as_str()).unwrap();
    assert_eq!(error["status"].as_u64().unwrap(), 400);
    assert_eq!(error["title"], "SQL Error");
    assert!(!error["detail"].to_string().is_empty());
}
