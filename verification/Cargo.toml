[package]
name = "rehash_player"
version = "0.1.0"
edition = "2021"
publish = false

[dependencies]
js-sys = "0.3"
serde = { version = "1", features = ["derive"] }
serde-wasm-bindgen = "0.6"
wasm-bindgen = "0.2"
wasm-bindgen-futures = "0.4"
web-sys = { version = "0.3", features = ["Blob", "BlobPropertyBag", "CssStyleDeclaration", "Document", "DomRect", "Element", "Event", "EventTarget", "HtmlDivElement", "HtmlElement", "HtmlMediaElement", "HtmlSpanElement", "HtmlVideoElement", "KeyboardEvent", "MediaSource", "MouseEvent", "Node", "SourceBuffer", "SvgElement", "Url", "Window"] }
