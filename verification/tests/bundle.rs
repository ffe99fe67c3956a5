use aa_module::bundle::{Bundle, FloatValue, GUIBundle, Info, Module, Modules, Value};
use aa_module::command::FloatBits;

fn float(value: f32) -> Value {
    Value::VFloat(FloatValue {
        bits: FloatBits(value.to_bits()),
        text: value.to_string(),
        truncated: value as i32,
    })
}

#[test]
fn integers_are_written_in_decimal() {
    assert_eq!(Value::VInt(0).to_string(), "0");
    assert_eq!(Value::VInt(7).to_string(), "7");
    assert_eq!(Value::VInt(10).to_string(), "10");
    assert_eq!(Value::VInt(-1).to_string(), "-1");
    assert_eq!(Value::VInt(1234567890).to_string(), "1234567890");
    assert_eq!(Value::VInt(-90210).to_string(), "-90210");
}

#[test]
fn integer_extremes_are_written_in_decimal() {
    assert_eq!(Value::VInt(i32::MAX).to_string(), "2147483647");
    assert_eq!(Value::VInt(i32::MIN).to_string(), "-2147483648");
}

#[test]
fn integers_are_written_as_std_writes_them() {
    for i in [-1000, -101, -100, -99, -10, -9, 9, 99, 100, 101, 999, 1000, 65536] {
        assert_eq!(Value::VInt(i).to_string(), i.to_string());
    }
}

#[test]
fn strings_are_written_as_they_are() {
    assert_eq!(Value::VString(String::from("gain")).to_string(), "gain");
    assert_eq!(Value::VString(String::new()).to_string(), "");
}

#[test]
fn floats_are_written_with_their_text() {
    assert_eq!(float(0.5).to_string(), "0.5");
    assert_eq!(float(-2.0).to_string(), "-2");
}

#[test]
fn pairs_are_written_in_brackets() {
    assert_eq!(Value::VPair((0, 0)).to_string(), "[0,0]");
    assert_eq!(Value::VPair((1, 20)).to_string(), "[1,20]");
    assert_eq!(Value::VPair((255, 128)).to_string(), "[255,128]");
}

#[test]
fn byte_lists_are_written_in_brackets_with_commas() {
    assert_eq!(Value::VVU8(vec![]).to_string(), "[]");
    assert_eq!(Value::VVU8(vec![7]).to_string(), "[7]");
    assert_eq!(Value::VVU8(vec![1, 2, 3]).to_string(), "[1,2,3]");
    assert_eq!(Value::VVU8(vec![0, 255, 10, 100]).to_string(), "[0,255,10,100]");
}

#[test]
fn numbers_of_values() {
    assert_eq!(i32::from(Value::VInt(42)), 42);
    assert_eq!(i32::from(Value::VInt(-42)), -42);
    assert_eq!(i32::from(float(3.9)), 3);
    assert_eq!(i32::from(float(-3.9)), -3);
    assert_eq!(i32::from(Value::VString(String::from("12"))), 0);
    assert_eq!(i32::from(Value::VPair((4, 5))), 0);
    assert_eq!(i32::from(Value::VVU8(vec![9])), 0);
}

#[test]
fn clone_keeps_the_value() {
    let values = vec![
        Value::VInt(-5),
        float(1.25),
        Value::VString(String::from("x")),
        Value::VPair((3, 4)),
        Value::VVU8(vec![1, 2]),
    ];
    for value in values {
        assert_eq!(value.clone().to_string(), value.to_string());
        assert_eq!(i32::from(value.clone()), i32::from(value));
    }
}

#[test]
fn manifest_holds_its_fields() {
    let info = Info {
        name: String::from("synth"),
        vendor: String::from("aa"),
        presets: 0,
        parameters: 3,
        inputs: 0,
        outputs: 2,
        midi_inputs: 1,
        midi_outputs: 0,
        id: 17,
        version: 1,
        category: String::from("instrument"),
        initial_delay: 0,
        preset_chunks: false,
        f64_precision: false,
        silent_when_stopped: true,
    };
    let bundle = Bundle {
        wasm_url: vec![String::from("/synth.wasm")],
        gui: GUIBundle {
            url: String::from("/gui.html"),
            name: String::from("synth"),
            params: vec![vec![Value::VInt(1), Value::VPair((0, 1))]],
            width: 400,
            height: 300,
        },
        gui_description: None,
        info,
    };
    let copy = bundle.clone();
    assert_eq!(copy.wasm_url, vec![String::from("/synth.wasm")]);
    assert_eq!(copy.gui.params[0][1].to_string(), "[0,1]");
    assert_eq!(copy.info.outputs, 2);
    assert!(copy.info.silent_when_stopped);
}

#[test]
fn module_listing_holds_its_entries() {
    let modules = Modules {
        default: String::from("synth"),
        modules: vec![Module {
            name: String::from("synth"),
            json_url: String::from("synth.json"),
        }],
    };
    assert_eq!(modules.default, "synth");
    assert_eq!(modules.modules[0].json_url, "synth.json");
}
