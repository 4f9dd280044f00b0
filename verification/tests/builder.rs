use vector_store::builder::BuildStep;
use vector_store::builder::StoreBuilder;
use vector_store::error::ErrorKind;
use vector_store::error::StoreError;

#[derive(Debug, PartialEq)]
struct Handle(u32);

#[derive(Debug, PartialEq)]
struct Embedder(&'static str);

#[test]
fn build_without_embedder_fails() {
    let step = StoreBuilder::<Handle, Embedder>::new().connection(Handle(1)).build();
    match step {
        Err(error) => {
            assert_eq!(error.kind(), ErrorKind::Configuration);
            assert_eq!(error.message(), "Embedder is required");
            assert_eq!(error, StoreError::Configuration("Embedder is required".to_string()));
        }
        Ok(_) => panic!("a build without an embedder succeeded"),
    }
}

#[test]
fn build_with_handle_is_ready() {
    let step = StoreBuilder::new()
        .embedder(Embedder("e"))
        .connection(Handle(7))
        .table("notes")
        .vector_dimensions(384)
        .build();
    match step {
        Ok(BuildStep::Ready(store)) => {
            assert_eq!(store.connection(), &Handle(7));
            assert_eq!(store.table(), "notes");
            assert_eq!(store.vector_dimensions(), 384);
            assert_eq!(store.embedder(), &Embedder("e"));
        }
        _ => panic!("expected a complete store"),
    }
}

#[test]
fn defaults_are_documents_and_zero_dimensions() {
    let step = StoreBuilder::new().embedder(Embedder("e")).connection(Handle(1)).build();
    match step {
        Ok(BuildStep::Ready(store)) => {
            assert_eq!(store.table(), "documents");
            assert_eq!(store.vector_dimensions(), 0);
        }
        _ => panic!("expected a complete store"),
    }
}

#[test]
fn default_builder_is_new_builder() {
    let step = StoreBuilder::<Handle, Embedder>::default().embedder(Embedder("e")).build();
    match step {
        Ok(BuildStep::Connect(pending)) => {
            assert_eq!(pending.url(), "./tmp/tmp_lancedb");
        }
        _ => panic!("expected a store that is still to be connected"),
    }
}

#[test]
fn build_with_url_asks_for_that_url() {
    let step = StoreBuilder::<Handle, Embedder>::new()
        .embedder(Embedder("e"))
        .connection_url("./tmp/lance")
        .vector_dimensions(3)
        .build();
    match step {
        Ok(BuildStep::Connect(pending)) => {
            assert_eq!(pending.url(), "./tmp/lance");
            let store = pending.connected(Ok(Handle(9))).unwrap();
            assert_eq!(store.connection(), &Handle(9));
            assert_eq!(store.table(), "documents");
            assert_eq!(store.vector_dimensions(), 3);
            assert_eq!(store.embedder(), &Embedder("e"));
        }
        _ => panic!("expected a store that is still to be connected"),
    }
}

#[test]
fn build_without_connection_asks_for_the_default_url() {
    let step = StoreBuilder::<Handle, Embedder>::new().embedder(Embedder("e")).build();
    match step {
        Ok(BuildStep::Connect(pending)) => assert_eq!(pending.url(), "./tmp/tmp_lancedb"),
        _ => panic!("expected a store that is still to be connected"),
    }
}

#[test]
fn url_after_handle_wins() {
    let step = StoreBuilder::new()
        .embedder(Embedder("e"))
        .connection(Handle(1))
        .connection_url("mem://b")
        .build();
    match step {
        Ok(BuildStep::Connect(pending)) => assert_eq!(pending.url(), "mem://b"),
        _ => panic!("the url set last did not win"),
    }
}

#[test]
fn handle_after_url_wins() {
    let step = StoreBuilder::new()
        .embedder(Embedder("e"))
        .connection_url("mem://a")
        .connection(Handle(2))
        .build();
    match step {
        Ok(BuildStep::Ready(store)) => assert_eq!(store.connection(), &Handle(2)),
        _ => panic!("the handle set last did not win"),
    }
}

#[test]
fn later_settings_replace_earlier_ones() {
    let step = StoreBuilder::new()
        .embedder(Embedder("first"))
        .embedder(Embedder("second"))
        .table("a")
        .table("b")
        .vector_dimensions(1)
        .vector_dimensions(2)
        .connection(Handle(1))
        .build();
    match step {
        Ok(BuildStep::Ready(store)) => {
            assert_eq!(store.embedder(), &Embedder("second"));
            assert_eq!(store.table(), "b");
            assert_eq!(store.vector_dimensions(), 2);
        }
        _ => panic!("expected a complete store"),
    }
}

#[test]
fn failed_connection_is_a_connection_error() {
    let step = StoreBuilder::<Handle, Embedder>::new().embedder(Embedder("e")).build();
    match step {
        Ok(BuildStep::Connect(pending)) => {
            let store = pending.connected::<Handle>(Err("no route".to_string()));
            match store {
                Err(error) => {
                    assert_eq!(error, StoreError::Connection("no route".to_string()));
                    assert_eq!(error.kind(), ErrorKind::Connection);
                }
                Ok(_) => panic!("a failed connection gave a store"),
            }
        }
        _ => panic!("expected a store that is still to be connected"),
    }
}
