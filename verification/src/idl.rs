use vstd::prelude::*;

use crate::text::str_eq;

verus! {

/// The discriminant of an Anchor instruction: eight bytes.
pub type AnchorInstructionDiscriminatLen = [u8; 8];

/// Holds the address and instructions read from a JSON IDL.
///
/// 1. It contains the address of the program (Public Key) defined as a String
///
/// 2. The instructions of the program
#[derive(Debug, PartialEq, PartialOrd)]
pub struct AnchorIdlPartialData {
    address: String,
    instructions: Vec<AnchorInstruction>,
}

/// An IDL defined instruction
#[derive(Debug, PartialEq, PartialOrd)]
pub struct AnchorInstruction {
    /// Name of the Instruction
    pub name: String,
    /// The discriminant of the instruction
    pub discriminator: [u8; 8],
}

/// The index of the first instruction in `instructions[from..]` whose name is `name`.
pub open spec fn first_named(instructions: Seq<AnchorInstruction>, name: Seq<char>, from: int) -> Option<int>
    decreases instructions.len() - from,
{
    if from < 0 || from >= instructions.len() {
        None
    } else if instructions[from].name@ == name {
        Some(from)
    } else {
        first_named(instructions, name, from + 1)
    }
}

/// The instruction `get_instruction` hands back is the first one with the name asked:
/// `first_named` finds the lowest matching index at or after `from`, and finds none only
/// when no instruction from there on has the name.
pub proof fn law_first_named_is_first_match(instructions: Seq<AnchorInstruction>, name: Seq<char>, from: int)
    requires
        0 <= from,
    ensures
        first_named(instructions, name, from) matches Some(i) ==> {
            &&& from <= i < instructions.len()
            &&& instructions[i].name@ == name
            &&& forall|j: int| from <= j < i ==> instructions[j].name@ != name
        },
        first_named(instructions, name, from) is None ==> forall|j: int|
            from <= j < instructions.len() ==> instructions[j].name@ != name,
    decreases instructions.len() - from,
{
    if from < instructions.len() && instructions[from].name@ != name {
        law_first_named_is_first_match(instructions, name, from + 1);
    }
}

impl AnchorIdlPartialData {
    /// The program address.
    pub closed spec fn spec_address(&self) -> Seq<char> {
        self.address@
    }

    /// The instructions, in the order of the IDL.
    pub closed spec fn spec_instructions(&self) -> Seq<AnchorInstruction> {
        self.instructions@
    }

    /// Builds the data from a program address and its instructions.
    pub fn new(address: String, instructions: Vec<AnchorInstruction>) -> (res: Self)
        ensures
            res.spec_address() == address@,
            res.spec_instructions() == instructions@,
    {
        AnchorIdlPartialData { address, instructions }
    }

    /// Get the program ID
    pub fn program_id(&self) -> (res: &str)
        ensures
            res@ == self.spec_address(),
    {
        self.address.as_str()
    }

    /// Get an instruction by the name defined in the JSON IDL: the first one with that name.
    pub fn get_instruction(&self, name: &str) -> (res: Option<&AnchorInstruction>)
        ensures
            match first_named(self.spec_instructions(), name@, 0) {
                Some(i) => res == Some(&self.spec_instructions()[i]),
                None => res is None,
            },
    {
        let n = self.instructions.len();
        let mut i: usize = 0;
        while i < n
            invariant
                n == self.instructions@.len(),
                i <= n,
                first_named(self.instructions@, name@, 0) == first_named(
                    self.instructions@,
                    name@,
                    i as int,
                ),
            decreases n - i,
        {
            if str_eq(self.instructions[i].name.as_str(), name) {
                return Some(&self.instructions[i]);
            }
            i = i + 1;
        }
        None
    }

    /// Get the discriminant of an instruction given the instruction name
    pub fn get_discriminant(&self, name: &str) -> (res: Option<AnchorInstructionDiscriminatLen>)
        ensures
            match first_named(self.spec_instructions(), name@, 0) {
                Some(i) => res == Some(self.spec_instructions()[i].discriminator),
                None => res is None,
            },
    {
        match self.get_instruction(name) {
            Some(ix) => Some(ix.discriminator),
            None => None,
        }
    }

    /// Get all Instructions
    pub fn get_instructions(&self) -> (res: &[AnchorInstruction])
        ensures
            res@ == self.spec_instructions(),
    {
        self.instructions.as_slice()
    }

    /// Get all the names for all instructions
    pub fn get_instruction_names(&self) -> (res: Vec<&str>)
        ensures
            res@.len() == self.spec_instructions().len(),
            forall|i: int|
                0 <= i < res@.len() ==> #[trigger] res@[i]@ == self.spec_instructions()[i].name@,
    {
        let mut names: Vec<&str> = Vec::new();
        let n = self.instructions.len();
        let mut i: usize = 0;
        while i < n
            invariant
                n == self.instructions@.len(),
                i <= n,
                names@.len() == i,
                forall|j: int|
                    0 <= j < i ==> #[trigger] names@[j]@ == self.instructions@[j].name@,
            decreases n - i,
        {
            names.push(self.instructions[i].name.as_str());
            i = i + 1;
        }
        names
    }
}

} // verus!
