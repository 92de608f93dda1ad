use wallet_adapter::idl::{AnchorIdlPartialData, AnchorInstruction};

fn data_from_json(idl: &str) -> AnchorIdlPartialData {
    let value: serde_json::Value = serde_json::from_str(idl).unwrap();
    let address = value["address"].as_str().unwrap().to_string();
    let instructions = value["instructions"]
        .as_array()
        .unwrap()
        .iter()
        .map(|ix| {
            let mut discriminator = [0u8; 8];
            for (slot, byte) in discriminator
                .iter_mut()
                .zip(ix["discriminator"].as_array().unwrap())
            {
                *slot = byte.as_u64().unwrap() as u8;
            }
            AnchorInstruction { name: ix["name"].as_str().unwrap().to_string(), discriminator }
        })
        .collect();
    AnchorIdlPartialData::new(address, instructions)
}

#[test]
fn correctness() {
    let idl = "
            {
                \"address\": \"3bF44ZTKPSc4qZV97mpRA85NkQaM9D9Z6i3uYjKbs8E6\",
                \"metadata\": {
                    \"name\": \"temp\",
                    \"version\": \"0.1.0\",
                    \"spec\": \"0.1.0\",
                    \"description\": \"Created with Anchor\"
                },
                \"instructions\": [
                    {
                    \"name\": \"initialize\",
                    \"discriminator\": [
                        175,
                        175,
                        109,
                        31,
                        13,
                        152,
                        155,
                        237
                    ],
                    \"accounts\": [],
                    \"args\": []
                    }
                ]
            }
        ";

    let parse = data_from_json(idl);

    assert_eq!(parse.program_id(), "3bF44ZTKPSc4qZV97mpRA85NkQaM9D9Z6i3uYjKbs8E6");
    assert_eq!(
        parse.get_instruction("initialize").map(|found| found.name.as_str()),
        Some("initialize")
    );
    assert_eq!(
        parse.get_discriminant("initialize"),
        Some([175, 175, 109, 31, 13, 152, 155, 237])
    );
}

fn sample() -> AnchorIdlPartialData {
    AnchorIdlPartialData::new(
        "Prog1111".to_string(),
        vec![
            AnchorInstruction { name: "initialize".to_string(), discriminator: [1; 8] },
            AnchorInstruction { name: "transfer".to_string(), discriminator: [2; 8] },
            AnchorInstruction { name: "initialize".to_string(), discriminator: [3; 8] },
        ],
    )
}

#[test]
fn missing_instruction_is_none() {
    let data = sample();
    assert!(data.get_instruction("close").is_none());
    assert_eq!(data.get_discriminant("close"), None);
    assert_eq!(data.get_discriminant(""), None);
}

#[test]
fn first_instruction_with_a_name_wins() {
    let data = sample();
    assert_eq!(data.get_discriminant("initialize"), Some([1; 8]));
    assert_eq!(data.get_discriminant("transfer"), Some([2; 8]));
}

#[test]
fn names_follow_the_instructions() {
    let data = sample();
    assert_eq!(data.get_instruction_names(), vec!["initialize", "transfer", "initialize"]);
    assert_eq!(data.get_instructions().len(), 3);
    assert_eq!(data.get_instructions()[1].name, "transfer");
}

#[test]
fn empty_idl() {
    let data = AnchorIdlPartialData::new(String::new(), Vec::new());
    assert_eq!(data.program_id(), "");
    assert!(data.get_instruction_names().is_empty());
    assert!(data.get_instruction("initialize").is_none());
}
