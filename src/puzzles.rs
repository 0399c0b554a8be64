use vstd::prelude::*;

verus! {

/// The serialized delegation layer puzzle.
pub const DELEGATION_LAYER_PUZZLE: [u8; 956] = [
    0xff, 0x02, 0xff, 0xff, 0x01, 0xff, 0x02, 0xff, 0xff, 0x03, 0xff, 0x2f,
    0xff, 0xff, 0x01, 0xff, 0x02, 0xff, 0xff, 0x03, 0xff, 0xff, 0x09, 0xff,
    0x17, 0xff, 0xff, 0x02, 0xff, 0x1e, 0xff, 0xff, 0x04, 0xff, 0x02, 0xff,
    0xff, 0x04, 0xff, 0xff, 0x0b, 0xff, 0xff, 0x01, 0x01, 0xff, 0xff, 0x02,
    0xff, 0x16, 0xff, 0xff, 0x04, 0xff, 0x02, 0xff, 0xff, 0x04, 0xff, 0x5f,
    0xff, 0x80, 0x80, 0x80, 0x80, 0x80, 0xff, 0xff, 0x04, 0xff, 0x2f, 0xff,
    0x80, 0x80, 0x80, 0x80, 0x80, 0x80, 0xff, 0xff, 0x01, 0xff, 0x02, 0xff,
    0x1a, 0xff, 0xff, 0x04, 0xff, 0x02, 0xff, 0xff, 0x04, 0xff, 0x05, 0xff,
    0xff, 0x04, 0xff, 0x0b, 0xff, 0xff, 0x04, 0xff, 0xff, 0x02, 0xff, 0x5f,
    0xff, 0x81, 0xbf, 0x80, 0xff, 0xff, 0x04, 0xff, 0xff, 0x04, 0xff, 0x17,
    0xff, 0x80, 0x80, 0xff, 0xff, 0x01, 0xff, 0x80, 0x80, 0x80, 0x80, 0x80,
    0x80, 0x80, 0x80, 0xff, 0xff, 0x01, 0xff, 0x08, 0xff, 0xff, 0x01, 0x90,
    0x70, 0x68, 0x20, 0x70, 0x72, 0x6f, 0x6f, 0x66, 0x20, 0x69, 0x6e, 0x76,
    0x61, 0x6c, 0x69, 0x64, 0x80, 0x80, 0xff, 0x01, 0x80, 0xff, 0xff, 0x01,
    0xff, 0x02, 0xff, 0xff, 0x03, 0xff, 0xff, 0x09, 0xff, 0xff, 0x02, 0xff,
    0x16, 0xff, 0xff, 0x04, 0xff, 0x02, 0xff, 0xff, 0x04, 0xff, 0x5f, 0xff,
    0x80, 0x80, 0x80, 0x80, 0xff, 0x0b, 0x80, 0xff, 0xff, 0x01, 0xff, 0x02,
    0xff, 0x5f, 0xff, 0x81, 0xbf, 0x80, 0xff, 0xff, 0x01, 0xff, 0x08, 0xff,
    0xff, 0x01, 0x8a, 0x70, 0x68, 0x20, 0x69, 0x6e, 0x76, 0x61, 0x6c, 0x69,
    0x64, 0x80, 0x80, 0xff, 0x01, 0x80, 0x80, 0xff, 0x01, 0x80, 0xff, 0xff,
    0x04, 0xff, 0xff, 0x01, 0xff, 0xff, 0x33, 0xff, 0x81, 0xf3, 0x02, 0xff,
    0xff, 0xff, 0xff, 0xa0, 0x4b, 0xf5, 0x12, 0x2f, 0x34, 0x45, 0x54, 0xc5,
    0x3b, 0xde, 0x2e, 0xbb, 0x8c, 0xd2, 0xb7, 0xe3, 0xd1, 0x60, 0x0a, 0xd6,
    0x31, 0xc3, 0x85, 0xa5, 0xd7, 0xcc, 0xe2, 0x3c, 0x77, 0x85, 0x45, 0x9a,
    0xa0, 0x9d, 0xcf, 0x97, 0xa1, 0x84, 0xf3, 0x26, 0x23, 0xd1, 0x1a, 0x73,
    0x12, 0x4c, 0xeb, 0x99, 0xa5, 0x70, 0x9b, 0x08, 0x37, 0x21, 0xe8, 0x78,
    0xa1, 0x6d, 0x78, 0xf5, 0x96, 0x71, 0x8b, 0xa7, 0xb2, 0xff, 0xa1, 0x02,
    0xa1, 0x28, 0x71, 0xfe, 0xe2, 0x10, 0xfb, 0x86, 0x19, 0x29, 0x1e, 0xae,
    0xa1, 0x94, 0x58, 0x1c, 0xbd, 0x25, 0x31, 0xe4, 0xb2, 0x37, 0x59, 0xd2,
    0x25, 0xf6, 0x80, 0x69, 0x23, 0xf6, 0x32, 0x22, 0xa1, 0x02, 0xa8, 0xd5,
    0xdd, 0x63, 0xfb, 0xa4, 0x71, 0xeb, 0xcb, 0x1f, 0x3e, 0x8f, 0x7c, 0x1e,
    0x18, 0x79, 0xb7, 0x15, 0x2a, 0x6e, 0x72, 0x98, 0xa9, 0x1c, 0xe1, 0x19,
    0xa6, 0x34, 0x00, 0xad, 0xe7, 0xc5, 0xff, 0x02, 0xff, 0xff, 0x03, 0xff,
    0x17, 0xff, 0xff, 0x01, 0xff, 0x02, 0xff, 0xff, 0x03, 0xff, 0xff, 0x22,
    0xff, 0xff, 0x09, 0xff, 0x47, 0xff, 0x14, 0x80, 0xff, 0xff, 0x09, 0xff,
    0xff, 0x0d, 0xff, 0x81, 0xa7, 0x80, 0xff, 0xff, 0x01, 0x20, 0x80, 0x80,
    0xff, 0xff, 0x01, 0xff, 0x02, 0xff, 0x1a, 0xff, 0xff, 0x04, 0xff, 0x02,
    0xff, 0xff, 0x04, 0xff, 0x05, 0xff, 0xff, 0x04, 0xff, 0x0b, 0xff, 0xff,
    0x04, 0xff, 0x37, 0xff, 0xff, 0x04, 0xff, 0x67, 0xff, 0xff, 0x04, 0xff,
    0x5f, 0xff, 0x80, 0x80, 0x80, 0x80, 0x80, 0x80, 0x80, 0x80, 0xff, 0xff,
    0x01, 0xff, 0x04, 0xff, 0x27, 0xff, 0xff, 0x02, 0xff, 0x1a, 0xff, 0xff,
    0x04, 0xff, 0x02, 0xff, 0xff, 0x04, 0xff, 0x05, 0xff, 0xff, 0x04, 0xff,
    0x0b, 0xff, 0xff, 0x04, 0xff, 0x37, 0xff, 0xff, 0x04, 0xff, 0x2f, 0xff,
    0xff, 0x04, 0xff, 0xff, 0x21, 0xff, 0x5f, 0xff, 0xff, 0x22, 0xff, 0xff,
    0x09, 0xff, 0x47, 0xff, 0x08, 0x80, 0xff, 0xff, 0x09, 0xff, 0xff, 0x18,
    0xff, 0x82, 0x01, 0x67, 0xff, 0xff, 0x01, 0x01, 0x80, 0xff, 0xff, 0x01,
    0x01, 0x80, 0x80, 0x80, 0xff, 0x80, 0x80, 0x80, 0x80, 0x80, 0x80, 0x80,
    0x80, 0x80, 0x80, 0xff, 0x01, 0x80, 0xff, 0xff, 0x01, 0xff, 0x02, 0xff,
    0xff, 0x03, 0xff, 0x5f, 0xff, 0x80, 0xff, 0xff, 0x01, 0xff, 0x04, 0xff,
    0xff, 0x04, 0xff, 0x08, 0xff, 0xff, 0x04, 0xff, 0xff, 0x0b, 0xff, 0x52,
    0xff, 0xff, 0x0b, 0xff, 0x1c, 0xff, 0xff, 0x0b, 0xff, 0x1c, 0xff, 0x62,
    0xff, 0x05, 0x80, 0xff, 0xff, 0x0b, 0xff, 0x1c, 0xff, 0xff, 0x0b, 0xff,
    0x72, 0xff, 0xff, 0x0b, 0xff, 0x1c, 0xff, 0xff, 0x0b, 0xff, 0x1c, 0xff,
    0x62, 0xff, 0xff, 0x0b, 0xff, 0xff, 0x01, 0x01, 0xff, 0x05, 0x80, 0x80,
    0xff, 0xff, 0x0b, 0xff, 0x1c, 0xff, 0xff, 0x0b, 0xff, 0x72, 0xff, 0xff,
    0x0b, 0xff, 0x1c, 0xff, 0xff, 0x0b, 0xff, 0x1c, 0xff, 0x62, 0xff, 0xff,
    0x0b, 0xff, 0xff, 0x01, 0x01, 0xff, 0x0b, 0x80, 0x80, 0xff, 0xff, 0x0b,
    0xff, 0x1c, 0xff, 0xff, 0x0b, 0xff, 0x72, 0xff, 0xff, 0x0b, 0xff, 0x1c,
    0xff, 0xff, 0x0b, 0xff, 0x1c, 0xff, 0x62, 0xff, 0xff, 0x0b, 0xff, 0xff,
    0x01, 0x01, 0xff, 0x4f, 0x80, 0x80, 0xff, 0xff, 0x0b, 0xff, 0x1c, 0xff,
    0x62, 0xff, 0x42, 0x80, 0x80, 0x80, 0xff, 0x42, 0x80, 0x80, 0x80, 0xff,
    0x42, 0x80, 0x80, 0x80, 0xff, 0x42, 0x80, 0x80, 0x80, 0xff, 0xff, 0x04,
    0xff, 0xff, 0x01, 0x01, 0xff, 0xff, 0x04, 0xff, 0x6f, 0xff, 0x80, 0x80,
    0x80, 0x80, 0x80, 0xff, 0x80, 0x80, 0x80, 0xff, 0x01, 0x80, 0x80, 0xff,
    0x01, 0x80, 0xff, 0xff, 0x02, 0xff, 0xff, 0x03, 0xff, 0xff, 0x07, 0xff,
    0x05, 0x80, 0xff, 0xff, 0x01, 0xff, 0x0b, 0xff, 0xff, 0x01, 0x02, 0xff,
    0xff, 0x02, 0xff, 0x16, 0xff, 0xff, 0x04, 0xff, 0x02, 0xff, 0xff, 0x04,
    0xff, 0x09, 0xff, 0x80, 0x80, 0x80, 0x80, 0xff, 0xff, 0x02, 0xff, 0x16,
    0xff, 0xff, 0x04, 0xff, 0x02, 0xff, 0xff, 0x04, 0xff, 0x0d, 0xff, 0x80,
    0x80, 0x80, 0x80, 0x80, 0xff, 0xff, 0x01, 0xff, 0x0b, 0xff, 0xff, 0x01,
    0x01, 0xff, 0x05, 0x80, 0x80, 0xff, 0x01, 0x80, 0xff, 0x02, 0xff, 0xff,
    0x03, 0xff, 0x1b, 0xff, 0xff, 0x01, 0xff, 0x02, 0xff, 0x1e, 0xff, 0xff,
    0x04, 0xff, 0x02, 0xff, 0xff, 0x04, 0xff, 0xff, 0x02, 0xff, 0xff, 0x03,
    0xff, 0xff, 0x18, 0xff, 0xff, 0x01, 0x01, 0xff, 0x13, 0x80, 0xff, 0xff,
    0x01, 0xff, 0x0b, 0xff, 0xff, 0x01, 0x02, 0xff, 0x2b, 0xff, 0x05, 0x80,
    0xff, 0xff, 0x01, 0xff, 0x0b, 0xff, 0xff, 0x01, 0x02, 0xff, 0x05, 0xff,
    0x2b, 0x80, 0x80, 0xff, 0x01, 0x80, 0xff, 0xff, 0x04, 0xff, 0xff, 0x04,
    0xff, 0xff, 0x17, 0xff, 0x13, 0xff, 0xff, 0x01, 0x81, 0xff, 0x80, 0xff,
    0x3b, 0x80, 0xff, 0x80, 0x80, 0x80, 0x80, 0x80, 0xff, 0xff, 0x01, 0x05,
    0x80, 0xff, 0x01, 0x80, 0xff, 0x01, 0x80, 0x80,
];

/// The tree hash of the delegation layer puzzle.
pub const DELEGATION_LAYER_PUZZLE_HASH: [u8; 32] = [
    0xac, 0xed, 0xec, 0x63, 0x96, 0x83, 0xbb, 0x8d, 0x7e, 0xc7, 0x79, 0x17,
    0xae, 0x5b, 0x2f, 0x07, 0xa8, 0xfc, 0x71, 0x4a, 0x5f, 0x04, 0x5b, 0x23,
    0xde, 0x0b, 0x52, 0x9d, 0x86, 0xba, 0xa5, 0xb6,
];

/// The serialized admin filter puzzle.
pub const ADMIN_FILTER_PUZZLE: [u8; 153] = [
    0xff, 0x02, 0xff, 0xff, 0x01, 0xff, 0x02, 0xff, 0x06, 0xff, 0xff, 0x04,
    0xff, 0x02, 0xff, 0xff, 0x04, 0xff, 0xff, 0x02, 0xff, 0x05, 0xff, 0x0b,
    0x80, 0xff, 0x80, 0x80, 0x80, 0x80, 0xff, 0xff, 0x04, 0xff, 0xff, 0x01,
    0xff, 0x33, 0xff, 0x02, 0xff, 0xff, 0x03, 0xff, 0x05, 0xff, 0xff, 0x01,
    0xff, 0x02, 0xff, 0xff, 0x03, 0xff, 0xff, 0x21, 0xff, 0xff, 0x09, 0xff,
    0x11, 0xff, 0x04, 0x80, 0xff, 0xff, 0x09, 0xff, 0x11, 0xff, 0xff, 0x01,
    0x81, 0x8f, 0x80, 0xff, 0xff, 0x22, 0xff, 0xff, 0x09, 0xff, 0x11, 0xff,
    0xff, 0x01, 0x81, 0xe8, 0x80, 0xff, 0xff, 0x20, 0xff, 0xff, 0x09, 0xff,
    0x82, 0x01, 0x59, 0xff, 0x80, 0x80, 0x80, 0x80, 0x80, 0xff, 0xff, 0x01,
    0xff, 0x08, 0x80, 0xff, 0xff, 0x01, 0xff, 0x04, 0xff, 0x09, 0xff, 0xff,
    0x02, 0xff, 0x06, 0xff, 0xff, 0x04, 0xff, 0x02, 0xff, 0xff, 0x04, 0xff,
    0x0d, 0xff, 0x80, 0x80, 0x80, 0x80, 0x80, 0x80, 0xff, 0x01, 0x80, 0xff,
    0x80, 0x80, 0xff, 0x01, 0x80, 0xff, 0x01, 0x80, 0x80,
];

/// The tree hash of the admin filter puzzle.
pub const ADMIN_FILTER_PUZZLE_HASH: [u8; 32] = [
    0x63, 0x32, 0xf1, 0x94, 0x1e, 0xb7, 0x46, 0x50, 0x1c, 0x02, 0x02, 0x6c,
    0x71, 0x1d, 0x9c, 0xac, 0xf2, 0x0e, 0x83, 0x72, 0xd3, 0x3c, 0xf5, 0x58,
    0xb3, 0x60, 0x05, 0x5b, 0x60, 0x2a, 0xa4, 0x71,
];

/// The serialized writer filter puzzle.
pub const WRITER_FILTER_PUZZLE: [u8; 36] = [
    0xff, 0x02, 0xff, 0xff, 0x01, 0xff, 0x04, 0xff, 0xff, 0x04, 0xff, 0x02,
    0xff, 0xff, 0x01, 0xff, 0x83, 0x79, 0x61, 0x6b, 0x80, 0x80, 0xff, 0x80,
    0x80, 0xff, 0xff, 0x04, 0xff, 0xff, 0x01, 0x01, 0xff, 0x01, 0x80, 0x80,
];

/// The tree hash of the writer filter puzzle.
pub const WRITER_FILTER_PUZZLE_HASH: [u8; 32] = [
    0xdb, 0x50, 0x8b, 0xfd, 0x0d, 0xba, 0x41, 0x2f, 0xe6, 0x07, 0x26, 0x94,
    0x66, 0xe6, 0x74, 0x34, 0x53, 0xb9, 0x41, 0x0c, 0x92, 0xa4, 0xfa, 0x3a,
    0x1f, 0x1d, 0x6f, 0x2c, 0x58, 0x2c, 0x53, 0xca,
];

/// The serialized metadata updater, which returns its input unchanged.
pub const DL_METADATA_UPDATER_PUZZLE: [u8; 1] = [
    0x0b,
];

/// The tree hash of the metadata updater.
pub const DL_METADATA_UPDATER_PUZZLE_HASH: [u8; 32] = [
    0x57, 0xbf, 0xd1, 0xcb, 0x0a, 0xdd, 0xa3, 0xd9, 0x43, 0x15, 0x05, 0x3f,
    0xda, 0x72, 0x3f, 0x20, 0x28, 0x32, 0x0f, 0xaa, 0x83, 0x38, 0x22, 0x5d,
    0x99, 0xf6, 0x29, 0xe3, 0xd4, 0x6d, 0x43, 0xa9,
];

} // verus!
