//! The programs whose accounts are recognised as price feeds. Each constant
//! holds the 32 bytes of the identifier that its documentation gives in
//! base 58.

use vstd::prelude::*;

verus! {

/// Switchboard v2 on mainnet: `SW1TCH7qEPTdLsDHRgPuMQjbQxKdH2aBStViMFnt64f`.
pub const SWITCHBOARD_V2_MAINNET: [u8; 32] = [
    6, 136, 81, 198, 140, 104, 50, 240, 47, 165, 129, 177, 191, 73, 27, 119, 202, 65, 119, 107,
    162, 185, 136, 181, 166, 250, 186, 142, 227, 162, 236, 144,
];

/// Switchboard v2 on devnet: `2TfB33aLaneQb5TNVwyDz3jSZXS6jdW2ARw1Dgf84XCG`.
pub const SWITCHBOARD_V2_DEVNET: [u8; 32] = [
    21, 175, 243, 73, 45, 68, 245, 12, 42, 213, 156, 141, 129, 194, 65, 181, 115, 202, 11, 225,
    119, 62, 247, 42, 73, 206, 175, 81, 212, 253, 178, 45,
];

/// Switchboard On-Demand on mainnet:
/// `SBondMDrcV3K4kxZR1HNVT7osZxAHVHgYXL5Ze1oMUv`.
pub const SWITCHBOARD_ON_DEMAND_MAINNET: [u8; 32] = [
    6, 115, 189, 70, 242, 228, 126, 4, 241, 43, 217, 47, 183, 49, 150, 142, 205, 157, 151, 87, 194,
    116, 218, 135, 71, 111, 70, 92, 4, 12, 101, 115,
];

/// Switchboard On-Demand on devnet, the same program as on mainnet:
/// `SBondMDrcV3K4kxZR1HNVT7osZxAHVHgYXL5Ze1oMUv`.
pub const SWITCHBOARD_ON_DEMAND_DEVNET: [u8; 32] = [
    6, 115, 189, 70, 242, 228, 126, 4, 241, 43, 217, 47, 183, 49, 150, 142, 205, 157, 151, 87, 194,
    116, 218, 135, 71, 111, 70, 92, 4, 12, 101, 115,
];

/// Pyth on mainnet: `FsJ3A3u2vn5cTVofAjvy6y5kwABJAqYWpe4975bi2epH`.
pub const PYTH_MAINNET: [u8; 32] = [
    220, 229, 235, 225, 228, 156, 59, 159, 17, 76, 181, 84, 76, 80, 169, 158, 192, 214, 146, 214,
    63, 86, 121, 90, 224, 41, 172, 131, 217, 234, 139, 226,
];

/// Pyth's pull oracle on mainnet: `rec5EKMGg6MxZYaMdyBfgwp4d5rB9T1VQH5pJv5LtFJ`.
pub const PYTH_PULL_MAINNET: [u8; 32] = [
    12, 183, 250, 187, 82, 247, 166, 72, 187, 91, 49, 125, 154, 1, 139, 144, 87, 203, 2, 71, 116,
    250, 254, 1, 230, 196, 223, 152, 204, 56, 88, 129,
];

/// The Renec oracle on mainnet: `5CU8Mjo3m5UhqxYKhEKz4dXcQwQjX9fhMiDDqZg7oqd7`.
pub const RENEC_ORACLE_MAINNET: [u8; 32] = [
    62, 94, 207, 29, 15, 65, 118, 29, 246, 14, 27, 193, 85, 105, 55, 126, 191, 216, 175, 142, 236,
    87, 156, 81, 6, 58, 66, 15, 95, 180, 83, 222,
];

} // verus!
