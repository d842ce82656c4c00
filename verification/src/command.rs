use vstd::prelude::*;

verus! {

/// First byte of every outbound device command.
pub const COMMAND_HEADER: u8 = 0x55;

/// Command identifier that selects the emissivity setting.
pub const EMISSIVITY_COMMAND_ID: u8 = 0x01;

/// The four command bytes that set the device emissivity: header,
/// command identifier, the emissivity value, and a checksum that is
/// the mod-256 sum of the first three bytes.
pub open spec fn spec_emissivity_command(emissivity: u8) -> Seq<u8> {
    seq![
        COMMAND_HEADER,
        EMISSIVITY_COMMAND_ID,
        emissivity,
        ((COMMAND_HEADER + EMISSIVITY_COMMAND_ID + emissivity) % 256) as u8,
    ]
}

/// Encode the emissivity-set command. The emissivity is a percentage,
/// clamped to 0..=100 by the settings producer.
pub fn emissivity_command(emissivity: u8) -> (cmd: Vec<u8>)
    requires
        emissivity <= 100,
    ensures
        cmd@ == spec_emissivity_command(emissivity),
{
    let checksum: u8 = COMMAND_HEADER + EMISSIVITY_COMMAND_ID + emissivity;
    let mut cmd: Vec<u8> = Vec::new();
    cmd.push(COMMAND_HEADER);
    cmd.push(EMISSIVITY_COMMAND_ID);
    cmd.push(emissivity);
    cmd.push(checksum);
    proof {
        assert(cmd@ =~= spec_emissivity_command(emissivity));
    }
    cmd
}

} // verus!
