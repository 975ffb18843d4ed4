//! The form that carries a meter photo, put together field by field.
use vstd::prelude::*;

use crate::text::{join3, or_empty, same_text, text_or_empty};

verus! {

/// The largest photo that is accepted. It is a ceiling against malformed uploads, far above what
/// the app sends.
pub const MAX_IMAGE_BYTES: usize = 8_388_608;

/// A complete request to read a meter.
#[derive(Debug, PartialEq)]
pub struct ReadRequest {
    pub company_prefix: String,
    pub company_url: String,
    pub site: String,
    pub device_id: String,
    pub pump_id: String,
    pub nozzle_id: String,
    /// "open" or "close".
    pub shift_event: String,
    pub image_bytes: Vec<u8>,
    pub image_media_type: String,
}

impl ReadRequest {
    /// Whether the photo has a size that is accepted.
    pub open spec fn well_formed(self) -> bool {
        0 < self.image_bytes@.len() <= MAX_IMAGE_BYTES
    }
}

/// What a form field is to a request.
#[derive(PartialEq, Eq, Structural, Clone, Copy, Debug)]
pub enum FormField {
    Image,
    CompanyPrefix,
    CompanyUrl,
    Site,
    DeviceId,
    PumpId,
    NozzleId,
    ShiftEvent,
    /// A field that is passed over.
    Unknown,
}

pub open spec fn field_named(name: Seq<char>) -> FormField {
    if name == "image"@ {
        FormField::Image
    } else if name == "company_prefix"@ {
        FormField::CompanyPrefix
    } else if name == "company_url"@ {
        FormField::CompanyUrl
    } else if name == "site"@ {
        FormField::Site
    } else if name == "device_id"@ {
        FormField::DeviceId
    } else if name == "pump_id"@ {
        FormField::PumpId
    } else if name == "nozzle_id"@ {
        FormField::NozzleId
    } else if name == "shift_event"@ {
        FormField::ShiftEvent
    } else {
        FormField::Unknown
    }
}

/// What the field with a name is to a request. A field without a name has the empty one.
pub fn form_field(name: &str) -> (field: FormField)
    ensures
        field == field_named(name@),
{
    if same_text(name, "image") {
        FormField::Image
    } else if same_text(name, "company_prefix") {
        FormField::CompanyPrefix
    } else if same_text(name, "company_url") {
        FormField::CompanyUrl
    } else if same_text(name, "site") {
        FormField::Site
    } else if same_text(name, "device_id") {
        FormField::DeviceId
    } else if same_text(name, "pump_id") {
        FormField::PumpId
    } else if same_text(name, "nozzle_id") {
        FormField::NozzleId
    } else if same_text(name, "shift_event") {
        FormField::ShiftEvent
    } else {
        FormField::Unknown
    }
}

/// The fields of a form that have come so far.
#[derive(Debug, PartialEq)]
pub struct ReadForm {
    pub company_prefix: Option<String>,
    pub company_url: Option<String>,
    pub site: Option<String>,
    pub device_id: Option<String>,
    pub pump_id: Option<String>,
    pub nozzle_id: Option<String>,
    pub shift_event: Option<String>,
    pub image_bytes: Option<Vec<u8>>,
    pub image_media_type: String,
}

/// Why an image is turned away, if it is.
pub open spec fn image_fault(len: nat) -> Option<Seq<char>> {
    if len > MAX_IMAGE_BYTES {
        Some("image too large (max 8MB)"@)
    } else if len == 0 {
        Some("image field was empty"@)
    } else {
        None
    }
}

impl ReadForm {
    /// Whether the photo, where it has come, has a size that is accepted.
    pub open spec fn well_formed(self) -> bool {
        self.image_bytes matches Some(bytes) ==> image_fault(bytes@.len()) is None
    }

    /// The form before any field has come.
    pub fn new() -> (form: ReadForm)
        ensures
            form.well_formed(),
            form.company_prefix is None,
            form.company_url is None,
            form.site is None,
            form.device_id is None,
            form.pump_id is None,
            form.nozzle_id is None,
            form.shift_event is None,
            form.image_bytes is None,
            form.image_media_type@ == "image/jpeg"@,
    {
        ReadForm {
            company_prefix: None,
            company_url: None,
            site: None,
            device_id: None,
            pump_id: None,
            nozzle_id: None,
            shift_event: None,
            image_bytes: None,
            image_media_type: "image/jpeg".to_owned(),
        }
    }

    /// The form with the text of one more field. A text field that comes again replaces what it
    /// was; an unknown one changes nothing.
    pub open spec fn text_put(self, field: FormField, text: String) -> ReadForm {
        match field {
            FormField::CompanyPrefix => ReadForm { company_prefix: Some(text), ..self },
            FormField::CompanyUrl => ReadForm { company_url: Some(text), ..self },
            FormField::Site => ReadForm { site: Some(text), ..self },
            FormField::DeviceId => ReadForm { device_id: Some(text), ..self },
            FormField::PumpId => ReadForm { pump_id: Some(text), ..self },
            FormField::NozzleId => ReadForm { nozzle_id: Some(text), ..self },
            FormField::ShiftEvent => ReadForm { shift_event: Some(text), ..self },
            FormField::Image | FormField::Unknown => self,
        }
    }

    /// The form with the text of one more field.
    pub fn put_text(self, field: FormField, text: String) -> (form: ReadForm)
        ensures
            form == self.text_put(field, text),
            self.well_formed() ==> form.well_formed(),
    {
        let mut form = self;
        match field {
            FormField::CompanyPrefix => {
                form.company_prefix = Some(text);
            },
            FormField::CompanyUrl => {
                form.company_url = Some(text);
            },
            FormField::Site => {
                form.site = Some(text);
            },
            FormField::DeviceId => {
                form.device_id = Some(text);
            },
            FormField::PumpId => {
                form.pump_id = Some(text);
            },
            FormField::NozzleId => {
                form.nozzle_id = Some(text);
            },
            FormField::ShiftEvent => {
                form.shift_event = Some(text);
            },
            FormField::Image | FormField::Unknown => {},
        }
        form
    }

    /// The form with a photo. Its media type stays what it was where the field names none.
    pub open spec fn image_put(self, content_type: Option<String>, bytes: Vec<u8>) -> ReadForm {
        ReadForm {
            image_bytes: Some(bytes),
            image_media_type: match content_type {
                Some(media_type) => media_type,
                None => self.image_media_type,
            },
            ..self
        }
    }

    /// The form with a photo, unless the photo is too large or empty.
    pub fn put_image(self, content_type: Option<String>, bytes: Vec<u8>) -> (form: Result<
        ReadForm,
        String,
    >)
        ensures
            form is Ok <==> image_fault(bytes@.len()) is None,
            form matches Ok(f) ==> f == self.image_put(content_type, bytes) && f.well_formed(),
            form matches Err(fault) ==> image_fault(bytes@.len()) == Some(fault@),
    {
        if bytes.len() > MAX_IMAGE_BYTES {
            return Err("image too large (max 8MB)".to_owned());
        }
        if bytes.len() == 0 {
            return Err("image field was empty".to_owned());
        }
        let mut form = self;
        form.image_bytes = Some(bytes);
        match content_type {
            Some(media_type) => {
                form.image_media_type = media_type;
            },
            None => {},
        }
        Ok(form)
    }

    /// What is missing from a form, the first in the order in which it is asked for.
    pub open spec fn missing(self) -> Option<Seq<char>> {
        if self.company_prefix is None {
            Some("missing company_prefix"@)
        } else if self.company_url is None {
            Some("missing company_url"@)
        } else if self.pump_id is None {
            Some("missing pump_id"@)
        } else if self.nozzle_id is None {
            Some("missing nozzle_id"@)
        } else if self.shift_event is None {
            Some("missing shift_event"@)
        } else if self.image_bytes is None {
            Some("missing image"@)
        } else {
            None
        }
    }

    /// Whether a request holds what the form holds: a site or a device that did not come is the
    /// empty text.
    pub open spec fn filled_into(self, request: ReadRequest) -> bool {
        &&& self.company_prefix == Some(request.company_prefix)
        &&& self.company_url == Some(request.company_url)
        &&& text_or_empty(self.site) == request.site@
        &&& text_or_empty(self.device_id) == request.device_id@
        &&& self.pump_id == Some(request.pump_id)
        &&& self.nozzle_id == Some(request.nozzle_id)
        &&& self.shift_event == Some(request.shift_event)
        &&& self.image_bytes == Some(request.image_bytes)
        &&& self.image_media_type == request.image_media_type
    }

    /// The request that a form makes once all its fields have come.
    pub fn finish(self) -> (request: Result<ReadRequest, String>)
        requires
            self.well_formed(),
        ensures
            request is Ok <==> self.missing() is None,
            request matches Ok(r) ==> self.filled_into(r) && r.well_formed(),
            request matches Err(fault) ==> self.missing() == Some(fault@),
    {
        let company_prefix = match self.company_prefix {
            Some(text) => text,
            None => return Err("missing company_prefix".to_owned()),
        };
        let company_url = match self.company_url {
            Some(text) => text,
            None => return Err("missing company_url".to_owned()),
        };
        let pump_id = match self.pump_id {
            Some(text) => text,
            None => return Err("missing pump_id".to_owned()),
        };
        let nozzle_id = match self.nozzle_id {
            Some(text) => text,
            None => return Err("missing nozzle_id".to_owned()),
        };
        let shift_event = match self.shift_event {
            Some(text) => text,
            None => return Err("missing shift_event".to_owned()),
        };
        let image_bytes = match self.image_bytes {
            Some(bytes) => bytes,
            None => return Err("missing image".to_owned()),
        };
        Ok(
            ReadRequest {
                company_prefix,
                company_url,
                site: or_empty(self.site),
                device_id: or_empty(self.device_id),
                pump_id,
                nozzle_id,
                shift_event,
                image_bytes,
                image_media_type: self.image_media_type,
            },
        )
    }
}

/// How a form that could not be read is turned away.
#[derive(PartialEq, Eq, Structural, Clone, Copy, Debug)]
pub enum FormTrouble {
    /// The body is no well-formed form.
    Malformed,
    /// The bytes of the photo could not be read.
    UnreadableImage,
    /// The text of a field could not be read.
    UnreadableField,
}

pub open spec fn trouble_text(trouble: FormTrouble, detail: Seq<char>) -> Seq<char> {
    match trouble {
        FormTrouble::Malformed => "malformed multipart body: "@ + detail,
        FormTrouble::UnreadableImage => "could not read image field: "@ + detail,
        FormTrouble::UnreadableField => "could not read form field: "@ + detail,
    }
}

/// What is said of a form that could not be read.
pub fn form_trouble(trouble: FormTrouble, detail: &str) -> (text: String)
    ensures
        text@ == trouble_text(trouble, detail@),
{
    let lead = match trouble {
        FormTrouble::Malformed => "malformed multipart body: ",
        FormTrouble::UnreadableImage => "could not read image field: ",
        FormTrouble::UnreadableField => "could not read form field: ",
    };
    let text = join3(lead, detail, "");
    proof {
        reveal_strlit("");
        assert(lead@ + detail@ + ""@ =~= lead@ + detail@);
    }
    text
}

/// The order in which two different text fields come does not matter.
pub proof fn text_fields_in_any_order(
    form: ReadForm,
    one: FormField,
    other: FormField,
    a: String,
    b: String,
)
    requires
        one != other,
    ensures
        form.text_put(one, a).text_put(other, b) == form.text_put(other, b).text_put(one, a),
{
}

/// A text field that comes again replaces what it was.
pub proof fn last_text_counts(form: ReadForm, field: FormField, a: String, b: String)
    ensures
        form.text_put(field, a).text_put(field, b) == form.text_put(field, b),
{
}

/// A field is known by its exact name, and every other name is unknown.
pub proof fn fields_are_known_by_name(name: Seq<char>)
    ensures
        field_named(name) is Image <==> name == "image"@,
        field_named(name) is CompanyPrefix <==> name == "company_prefix"@,
        field_named(name) is CompanyUrl <==> name == "company_url"@,
        field_named(name) is Site <==> name == "site"@,
        field_named(name) is DeviceId <==> name == "device_id"@,
        field_named(name) is PumpId <==> name == "pump_id"@,
        field_named(name) is NozzleId <==> name == "nozzle_id"@,
        field_named(name) is ShiftEvent <==> name == "shift_event"@,
{
    reveal_strlit("image");
    reveal_strlit("company_prefix");
    reveal_strlit("company_url");
    reveal_strlit("site");
    reveal_strlit("device_id");
    reveal_strlit("pump_id");
    reveal_strlit("nozzle_id");
    reveal_strlit("shift_event");
    assert("image"@.len() == 5 && "company_prefix"@.len() == 14 && "company_url"@.len() == 11);
    assert("site"@.len() == 4 && "device_id"@.len() == 9 && "pump_id"@.len() == 7);
    assert("nozzle_id"@.len() == 9 && "shift_event"@.len() == 11);
    assert("company_url"@[0] == 'c' && "shift_event"@[0] == 's');
    assert("device_id"@[0] == 'd' && "nozzle_id"@[0] == 'n');
}

/// The text of a field goes to its own place, and every other place is left as it was.
pub proof fn texts_go_to_their_own_place(form: ReadForm, field: FormField, text: String)
    ensures
        ({
            let next = form.text_put(field, text);
            &&& next.company_prefix == if field is CompanyPrefix {
                Some(text)
            } else {
                form.company_prefix
            }
            &&& next.company_url == if field is CompanyUrl {
                Some(text)
            } else {
                form.company_url
            }
            &&& next.site == if field is Site {
                Some(text)
            } else {
                form.site
            }
            &&& next.device_id == if field is DeviceId {
                Some(text)
            } else {
                form.device_id
            }
            &&& next.pump_id == if field is PumpId {
                Some(text)
            } else {
                form.pump_id
            }
            &&& next.nozzle_id == if field is NozzleId {
                Some(text)
            } else {
                form.nozzle_id
            }
            &&& next.shift_event == if field is ShiftEvent {
                Some(text)
            } else {
                form.shift_event
            }
            &&& next.image_bytes == form.image_bytes
            &&& next.image_media_type == form.image_media_type
        }),
{
}

/// A photo goes in with all its bytes and with the media type that it names, if it names one; the
/// texts are left as they were.
pub proof fn photos_go_in_whole(form: ReadForm, content_type: Option<String>, bytes: Vec<u8>)
    ensures
        ({
            let next = form.image_put(content_type, bytes);
            &&& next.image_bytes == Some(bytes)
            &&& content_type matches Some(media_type) ==> next.image_media_type == media_type
            &&& content_type is None ==> next.image_media_type == form.image_media_type
            &&& next.company_prefix == form.company_prefix
            &&& next.company_url == form.company_url
            &&& next.site == form.site
            &&& next.device_id == form.device_id
            &&& next.pump_id == form.pump_id
            &&& next.nozzle_id == form.nozzle_id
            &&& next.shift_event == form.shift_event
        }),
{
}

/// A photo is taken just where it has from one byte to eight megabytes.
pub proof fn photos_have_from_one_byte_to_eight_megabytes(len: nat)
    ensures
        image_fault(len) is None <==> 1 <= len <= 8 * 1024 * 1024,
        len == 0 ==> image_fault(len) == Some("image field was empty"@),
        len > 8 * 1024 * 1024 ==> image_fault(len) == Some("image too large (max 8MB)"@),
{
}

/// A form is complete just where it has all but the site and the device, and what it lacks first is
/// told by its name.
pub proof fn forms_lack_what_they_do_not_have(form: ReadForm)
    ensures
        form.missing() is None <==> {
            &&& form.company_prefix is Some
            &&& form.company_url is Some
            &&& form.pump_id is Some
            &&& form.nozzle_id is Some
            &&& form.shift_event is Some
            &&& form.image_bytes is Some
        },
        form.company_prefix is None ==> form.missing() == Some("missing company_prefix"@),
        form.company_prefix is Some && form.company_url is None ==> form.missing() == Some(
            "missing company_url"@,
        ),
        form.company_prefix is Some && form.company_url is Some ==> {
            &&& form.pump_id is None ==> form.missing() == Some("missing pump_id"@)
            &&& form.pump_id is Some && form.nozzle_id is None ==> form.missing() == Some(
                "missing nozzle_id"@,
            )
            &&& form.pump_id is Some && form.nozzle_id is Some && form.shift_event is None
                ==> form.missing() == Some("missing shift_event"@)
            &&& form.pump_id is Some && form.nozzle_id is Some && form.shift_event is Some
                && form.image_bytes is None ==> form.missing() == Some("missing image"@)
        },
{
}

/// A request has what its form has, each in its own place; a site or a device that did not come is
/// the empty text.
pub proof fn requests_hold_their_form(form: ReadForm, request: ReadRequest)
    requires
        form.filled_into(request),
    ensures
        form.company_prefix == Some(request.company_prefix),
        form.company_url == Some(request.company_url),
        form.pump_id == Some(request.pump_id),
        form.nozzle_id == Some(request.nozzle_id),
        form.shift_event == Some(request.shift_event),
        form.image_bytes == Some(request.image_bytes),
        form.image_media_type == request.image_media_type,
        form.site matches Some(site) ==> request.site@ == site@,
        form.site is None ==> request.site@.len() == 0,
        form.device_id matches Some(device) ==> request.device_id@ == device@,
        form.device_id is None ==> request.device_id@.len() == 0,
{
}

/// What is wrong with a form is told with its detail as it is.
pub proof fn trouble_is_told_in_detail(detail: Seq<char>)
    ensures
        trouble_text(FormTrouble::Malformed, detail) == "malformed multipart body: "@ + detail,
        trouble_text(FormTrouble::UnreadableImage, detail) == "could not read image field: "@
            + detail,
        trouble_text(FormTrouble::UnreadableField, detail) == "could not read form field: "@
            + detail,
{
}

} // verus!
