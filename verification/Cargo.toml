[package]
name = "sound_scene"
version = "0.1.0"
edition = "2021"
publish = false

[dependencies]
js-sys = "0.3"
nalgebra-glm = "*"
wasm-bindgen = "0.2"
wasm-bindgen-futures = "0.4"
web-sys = { version = "0.3", features = ["AnalyserNode", "AudioContext", "AudioDestinationNode", "AudioNode", "AudioParam", "BaseAudioContext", "Document", "Element", "GainNode", "HtmlCanvasElement", "HtmlElement", "MediaDevices", "MediaStream", "MediaStreamAudioSourceNode", "MediaStreamConstraints", "Navigator", "Node", "OscillatorNode", "OscillatorType", "WebGl2RenderingContext", "WebGlBuffer", "WebGlProgram", "WebGlShader", "WebGlUniformLocation", "Window", "console"] }
