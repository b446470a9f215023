//! Building the request that uploads a temporary file to litterbox, the
//! companion short-retention service.

use crate::form::{field, FormField};
use crate::helper::spec_file_name;
use crate::strutil::u8_dec;
use vstd::prelude::*;
use vstd::string::*;

verus! {

/// The retention times, in hours, that the ephemeral service accepts.
pub open spec fn valid_retention(t: u8) -> bool {
    t == 1 || t == 12 || t == 24 || t == 72
}

/// The text fields of a litterbox upload: the request type and the
/// retention time written as `<hours>h`.
pub open spec fn spec_litter_fields(time: u8) -> Seq<(Seq<char>, Seq<char>)> {
    seq![("reqtype"@, "fileupload"@), ("time"@, u8_dec(time as nat).push('h'))]
}

/// A multipart litterbox upload request: its text fields, and the file to
/// attach under the given part name, named by its final path component.
pub struct LitterUploadRequest {
    pub fields: Vec<FormField>,
    pub file_part: String,
    pub file_path: String,
    pub file_name: String,
}

/// Build the multipart request that uploads a temporary file kept for
/// `time` hours.
pub fn upload(file_path: String, time: u8) -> (r: LitterUploadRequest)
    ensures
        r.fields.deep_view() == spec_litter_fields(time),
        r.file_part@ == "fileToUpload"@,
        r.file_path@ == file_path@,
        r.file_name@ == spec_file_name(file_path@),
{
    let time_value = crate::strutil::u8_to_dec_string(time).concat("h");
    proof {
        reveal_strlit("h");
        assert("h"@ =~= seq!['h']);
        assert(time_value@ =~= u8_dec(time as nat).push('h'));
    }
    let name = crate::helper::file_name(file_path.as_str());
    let mut fields: Vec<FormField> = Vec::new();
    fields.push(field("reqtype", String::from_str("fileupload")));
    fields.push(field("time", time_value));
    proof {
        assert(fields.deep_view() =~= spec_litter_fields(time));
    }
    LitterUploadRequest {
        fields,
        file_part: String::from_str("fileToUpload"),
        file_path,
        file_name: name,
    }
}

} // verus!
