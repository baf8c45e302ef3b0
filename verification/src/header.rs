use crate::endian::{
    be16, be32, be64, lemma_be32_zero, lemma_be64_zero, lemma_store_be16, lemma_store_be64,
    read_be16, read_be32, read_be64, store_be16, store_be64, write_be16, write_be64,
};
use crate::StoryFileError;
use vstd::prelude::*;

verus! {

/// The fixed 1024-byte story-file header, decoded into typed fields.
///
/// Every multi-byte field is stored big-endian in the file.  The five
/// `*_ptr` fields are reserved pointer fields that the engine parses but
/// never interprets.
#[derive(Debug, PartialEq, Clone)]
pub struct StoryHeader {
    pub version: u16,
    pub release_number: u16,
    pub story_id: u64,
    pub checksum: u64,
    pub code_section_start: u64,
    pub code_section_length: u64,
    pub static_data_section_start: u64,
    pub static_data_section_length: u64,
    pub dynamic_data_section_start: u64,
    pub dynamic_data_section_length: u64,
    pub globals_table_start: u64,
    pub object_table_start: u64,
    pub dictionary_start: u64,
    pub abbreviation_table_start: u64,
    pub flags1: u32,
    pub flags2: u32,
    pub llm_api_endpoint_ptr: u64,
    pub llm_parameters_ptr: u64,
    pub context_globals_list_ptr: u64,
    pub recent_events_buffer_ptr: u64,
    pub recent_events_count_ptr: u64,
    pub property_defaults_table_start: u64,
    pub reserved: Vec<u8>,
}

/// The mathematical value of a header: the same fields, with the reserved
/// padding as a byte sequence.
pub ghost struct HeaderView {
    pub version: u16,
    pub release_number: u16,
    pub story_id: u64,
    pub checksum: u64,
    pub code_section_start: u64,
    pub code_section_length: u64,
    pub static_data_section_start: u64,
    pub static_data_section_length: u64,
    pub dynamic_data_section_start: u64,
    pub dynamic_data_section_length: u64,
    pub globals_table_start: u64,
    pub object_table_start: u64,
    pub dictionary_start: u64,
    pub abbreviation_table_start: u64,
    pub flags1: u32,
    pub flags2: u32,
    pub llm_api_endpoint_ptr: u64,
    pub llm_parameters_ptr: u64,
    pub context_globals_list_ptr: u64,
    pub recent_events_buffer_ptr: u64,
    pub recent_events_count_ptr: u64,
    pub property_defaults_table_start: u64,
    pub reserved: Seq<u8>,
}

impl View for StoryHeader {
    type V = HeaderView;

    open spec fn view(&self) -> HeaderView {
        HeaderView {
            version: self.version,
            release_number: self.release_number,
            story_id: self.story_id,
            checksum: self.checksum,
            code_section_start: self.code_section_start,
            code_section_length: self.code_section_length,
            static_data_section_start: self.static_data_section_start,
            static_data_section_length: self.static_data_section_length,
            dynamic_data_section_start: self.dynamic_data_section_start,
            dynamic_data_section_length: self.dynamic_data_section_length,
            globals_table_start: self.globals_table_start,
            object_table_start: self.object_table_start,
            dictionary_start: self.dictionary_start,
            abbreviation_table_start: self.abbreviation_table_start,
            flags1: self.flags1,
            flags2: self.flags2,
            llm_api_endpoint_ptr: self.llm_api_endpoint_ptr,
            llm_parameters_ptr: self.llm_parameters_ptr,
            context_globals_list_ptr: self.context_globals_list_ptr,
            recent_events_buffer_ptr: self.recent_events_buffer_ptr,
            recent_events_count_ptr: self.recent_events_count_ptr,
            property_defaults_table_start: self.property_defaults_table_start,
            reserved: self.reserved@,
        }
    }
}

/// The header encoded in the first 1024 bytes of `s`, field by field at the
/// fixed big-endian offsets of the story-file format.
pub open spec fn spec_header(s: Seq<u8>) -> HeaderView
    recommends
        s.len() >= 1024,
{
    HeaderView {
        version: be16(s, 0),
        release_number: be16(s, 2),
        story_id: be64(s, 4),
        checksum: be64(s, 12),
        code_section_start: be64(s, 20),
        code_section_length: be64(s, 28),
        static_data_section_start: be64(s, 36),
        static_data_section_length: be64(s, 44),
        dynamic_data_section_start: be64(s, 52),
        dynamic_data_section_length: be64(s, 60),
        globals_table_start: be64(s, 68),
        object_table_start: be64(s, 76),
        dictionary_start: be64(s, 84),
        abbreviation_table_start: be64(s, 92),
        flags1: be32(s, 100),
        flags2: be32(s, 104),
        llm_api_endpoint_ptr: be64(s, 108),
        llm_parameters_ptr: be64(s, 116),
        context_globals_list_ptr: be64(s, 124),
        recent_events_buffer_ptr: be64(s, 132),
        recent_events_count_ptr: be64(s, 140),
        property_defaults_table_start: be64(s, 148),
        reserved: s.subrange(156, 1024),
    }
}

impl StoryHeader {
    /// Decodes the first 1024 bytes of `bytes` into a header.  Pure
    /// deserialization: no field value is validated here.
    pub fn from_bytes(bytes: &[u8]) -> (r: Result<StoryHeader, StoryFileError>)
        ensures
            match r {
                Ok(h) => bytes@.len() >= 1024 && h@ == spec_header(bytes@),
                Err(e) => bytes@.len() < 1024 && e == StoryFileError::TooShort,
            },
    {
        if bytes.len() < 1024 {
            return Err(StoryFileError::TooShort);
        }
        let mut reserved: Vec<u8> = Vec::new();
        let mut i: usize = 156;
        while i < 1024
            invariant
                156 <= i <= 1024,
                bytes@.len() >= 1024,
                reserved@ == bytes@.subrange(156, i as int),
            decreases 1024 - i,
        {
            reserved.push(bytes[i]);
            proof {
                assert(reserved@ =~= bytes@.subrange(156, i + 1));
            }
            i = i + 1;
        }
        let h = StoryHeader {
            version: read_be16(bytes, 0),
            release_number: read_be16(bytes, 2),
            story_id: read_be64(bytes, 4),
            checksum: read_be64(bytes, 12),
            code_section_start: read_be64(bytes, 20),
            code_section_length: read_be64(bytes, 28),
            static_data_section_start: read_be64(bytes, 36),
            static_data_section_length: read_be64(bytes, 44),
            dynamic_data_section_start: read_be64(bytes, 52),
            dynamic_data_section_length: read_be64(bytes, 60),
            globals_table_start: read_be64(bytes, 68),
            object_table_start: read_be64(bytes, 76),
            dictionary_start: read_be64(bytes, 84),
            abbreviation_table_start: read_be64(bytes, 92),
            flags1: read_be32(bytes, 100),
            flags2: read_be32(bytes, 104),
            llm_api_endpoint_ptr: read_be64(bytes, 108),
            llm_parameters_ptr: read_be64(bytes, 116),
            context_globals_list_ptr: read_be64(bytes, 124),
            recent_events_buffer_ptr: read_be64(bytes, 132),
            recent_events_count_ptr: read_be64(bytes, 140),
            property_defaults_table_start: read_be64(bytes, 148),
            reserved,
        };
        Ok(h)
    }
}

/// Builds a well-formed 1024-byte header image for test fixtures: the
/// supported version, release 1, and a section layout of a 256-byte code
/// section at 1024, 128 bytes of static data at 1280, and a 64-byte
/// dynamic-data section at 1408, with the table pointers directly above
/// and everything else zero.
#[verifier::rlimit(30)]
pub fn create_dummy_header_bytes() -> (r: Vec<u8>)
    ensures
        r@.len() == 1024,
        spec_header(r@).version == 0x0200,
        spec_header(r@).release_number == 0x0001,
        spec_header(r@).story_id == 0xAA,
        spec_header(r@).checksum == 0x123456789ABCDEF0,
        spec_header(r@).code_section_start == 1024,
        spec_header(r@).code_section_length == 256,
        spec_header(r@).static_data_section_start == 1280,
        spec_header(r@).static_data_section_length == 128,
        spec_header(r@).dynamic_data_section_start == 1408,
        spec_header(r@).dynamic_data_section_length == 64,
        spec_header(r@).globals_table_start == 1472,
        spec_header(r@).object_table_start == 1504,
        spec_header(r@).dictionary_start == 1520,
        spec_header(r@).abbreviation_table_start == 1528,
        spec_header(r@).flags1 == 0,
        spec_header(r@).flags2 == 0,
        spec_header(r@).llm_api_endpoint_ptr == 0,
        spec_header(r@).llm_parameters_ptr == 0,
        spec_header(r@).context_globals_list_ptr == 0,
        spec_header(r@).recent_events_buffer_ptr == 0,
        spec_header(r@).recent_events_count_ptr == 0,
        spec_header(r@).property_defaults_table_start == 0,
        spec_header(r@).reserved.len() == 868,
        forall|j: int| 0 <= j < 868 ==> spec_header(r@).reserved[j] == 0u8,
{
    let mut bytes: Vec<u8> = Vec::new();
    let mut i: usize = 0;
    while i < 1024
        invariant
            i <= 1024,
            bytes@.len() == i,
            forall|j: int| 0 <= j < i ==> bytes@[j] == 0u8,
        decreases 1024 - i,
    {
        bytes.push(0);
        i = i + 1;
    }
    let ghost z = bytes@;
    write_be16(&mut bytes, 0, 0x0200);
    write_be16(&mut bytes, 2, 0x0001);
    write_be64(&mut bytes, 4, 0xAA);
    write_be64(&mut bytes, 12, 0x123456789ABCDEF0);
    write_be64(&mut bytes, 20, 1024);
    write_be64(&mut bytes, 28, 256);
    write_be64(&mut bytes, 36, 1280);
    write_be64(&mut bytes, 44, 128);
    write_be64(&mut bytes, 52, 1408);
    write_be64(&mut bytes, 60, 64);
    write_be64(&mut bytes, 68, 1472);
    write_be64(&mut bytes, 76, 1504);
    write_be64(&mut bytes, 84, 1520);
    write_be64(&mut bytes, 92, 1528);
    proof {
        let m1 = store_be16(z, 0, 0x0200);
        let m2 = store_be16(m1, 2, 0x0001);
        let m3 = store_be64(m2, 4, 0xAA);
        let m4 = store_be64(m3, 12, 0x123456789ABCDEF0);
        let m5 = store_be64(m4, 20, 1024);
        let m6 = store_be64(m5, 28, 256);
        let m7 = store_be64(m6, 36, 1280);
        let m8 = store_be64(m7, 44, 128);
        let m9 = store_be64(m8, 52, 1408);
        let m10 = store_be64(m9, 60, 64);
        let m11 = store_be64(m10, 68, 1472);
        let m12 = store_be64(m11, 76, 1504);
        let m13 = store_be64(m12, 84, 1520);
        let m14 = store_be64(m13, 92, 1528);
        lemma_store_be16(z, 0, 0x0200);
        lemma_store_be16(m1, 2, 0x0001);
        lemma_store_be64(m2, 4, 0xAA);
        lemma_store_be64(m3, 12, 0x123456789ABCDEF0);
        lemma_store_be64(m4, 20, 1024);
        lemma_store_be64(m5, 28, 256);
        lemma_store_be64(m6, 36, 1280);
        lemma_store_be64(m7, 44, 128);
        lemma_store_be64(m8, 52, 1408);
        lemma_store_be64(m9, 60, 64);
        lemma_store_be64(m10, 68, 1472);
        lemma_store_be64(m11, 76, 1504);
        lemma_store_be64(m12, 84, 1520);
        lemma_store_be64(m13, 92, 1528);
        assert(bytes@ == m14);
        assert forall|j: int| 100 <= j < 1024 implies m14[j] == 0u8 by {
            assert(m14[j] == m13[j]);
            assert(m13[j] == m12[j]);
            assert(m12[j] == m11[j]);
            assert(m11[j] == m10[j]);
            assert(m10[j] == m9[j]);
            assert(m9[j] == m8[j]);
            assert(m8[j] == m7[j]);
            assert(m7[j] == m6[j]);
            assert(m6[j] == m5[j]);
            assert(m5[j] == m4[j]);
            assert(m4[j] == m3[j]);
            assert(m3[j] == m2[j]);
            assert(m2[j] == m1[j]);
            assert(m1[j] == z[j]);
        }
        lemma_be32_zero(m14, 100);
        lemma_be32_zero(m14, 104);
        lemma_be64_zero(m14, 108);
        lemma_be64_zero(m14, 116);
        lemma_be64_zero(m14, 124);
        lemma_be64_zero(m14, 132);
        lemma_be64_zero(m14, 140);
        lemma_be64_zero(m14, 148);
    }
    bytes
}

} // verus!
