[package]
name = "notepad"
version = "0.1.0"
edition = "2021"
publish = false

[dependencies]
chrono = "0.4"
serde = { version = "1", features = ["derive"] }
yew = { version = "0.20", features = ["csr"] }
yew-router = "0.17"
wasm-bindgen = { version = "0.2", features = ["serde-serialize"] }
wasm-bindgen-futures = "0.4"
js-sys = "0.3"
futures-channel = "0.3"
web-sys = { version = "0.3", features = ["Window", "Document", "Element", "Event", "EventTarget", "HtmlTextAreaElement", "HtmlInputElement", "IdbFactory", "IdbDatabase", "IdbOpenDbRequest", "IdbRequest", "IdbObjectStore", "IdbObjectStoreParameters", "IdbTransaction", "IdbTransactionMode", "IdbCursor", "IdbCursorWithValue", "console"] }
