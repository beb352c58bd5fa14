[package]
name = "arwa"
version = "0.1.0"
edition = "2021"
publish = false

[dependencies]
delegate = "*"
js-sys = "*"
wasm-bindgen = "*"
web-sys = { version = "*", features = ["Attr", "Crypto", "DocumentFragment", "DomException", "DomRect", "DomRectList", "DomTokenList", "Element", "EventTarget", "HtmlAreaElement", "HtmlCollection", "HtmlDataListElement", "HtmlDetailsElement", "HtmlElement", "HtmlFormElement", "HtmlMapElement", "HtmlMeterElement", "HtmlOptionElement", "HtmlOptionsCollection", "HtmlSelectElement", "NamedNodeMap", "Node", "NodeList", "ShadowRoot", "ShadowRootInit", "ShadowRootMode", "SubtleCrypto", "Text", "Document", "ValidityState", "Worker", "WorkerOptions", "WorkerType", "console"] }
