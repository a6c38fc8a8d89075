[package]
name = "wasm_peers"
version = "0.4.1"
edition = "2021"
publish = false

[dependencies]
futures-util = "=0.3.34"
js-sys = "=0.3.106"
log = "=0.4.34"
rmp-serde = "=1.3.1"
serde = { version = "=1.0.229", features = ["derive"] }
simplelog = "=0.12.2"
tokio = { version = "=1.54.1", features = ["macros", "net", "rt-multi-thread", "sync"] }
tokio-stream = "=0.1.19"
turn = "=0.17.2"
warp = { version = "=0.3.7", features = ["websocket"] }
wasm-bindgen = "=0.2.129"
wasm-bindgen-futures = "=0.4.79"
web-sys = { version = "=0.3.106", features = ["BinaryType", "MessageEvent", "RtcConfiguration", "RtcDataChannel", "RtcDataChannelEvent", "RtcDataChannelInit", "RtcIceCandidate", "RtcIceCandidateInit", "RtcIceConnectionState", "RtcIceGatheringState", "RtcPeerConnection", "RtcPeerConnectionIceEvent", "RtcSdpType", "RtcSessionDescriptionInit", "WebSocket"] }
webrtc-util = { version = "=0.17.2", default-features = false, features = ["conn", "vnet"] }
