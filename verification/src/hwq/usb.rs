use vstd::prelude::*;
use crate::text::{ascii_lowercase, ascii_uppercase, is_ascii_text, law_ascii_case_folds, chars_of, contains_lit, digits_value, has_sub, is_digit, lowercase, to_lowercase};

verus! {

fn is_digit_char(c: char) -> (r: bool)
    ensures
        r == is_digit(c),
{
    '0' <= c && c <= '9'
}

/// USB device information.
#[derive(Debug, Clone)]
pub struct USBDevice {
    pub vendor_id: String,
    pub product_id: String,
    pub vendor_name: String,
    pub product_name: String,
    pub device_class: String,
    /// USB version (1.0, 1.1, 2.0, 3.0, etc.)
    pub usb_version: String,
    pub serial_number: Option<String>,
    pub bus_number: u8,
    pub device_address: u8,
    pub port_path: Option<String>,
    pub driver: Option<String>,
    /// Is device currently connected
    pub connected: bool,
}

pub open spec fn usb_storage_class(lower: Seq<char>) -> bool {
    has_sub(lower, "mass storage"@) || has_sub(lower, "storage"@)
}

pub open spec fn usb_input_class(lower: Seq<char>) -> bool {
    has_sub(lower, "hid"@) || has_sub(lower, "human interface"@) || has_sub(lower, "input"@)
}

pub open spec fn usb_audio_class(lower: Seq<char>) -> bool {
    has_sub(lower, "audio"@)
}

pub open spec fn usb_video_class(lower: Seq<char>) -> bool {
    has_sub(lower, "video"@) || has_sub(lower, "camera"@)
}

/// `s` from its first decimal digit on (empty when it has none).
pub open spec fn skip_to_digit(s: Seq<char>) -> Seq<char>
    decreases s.len(),
{
    if s.len() > 0 && !is_digit(s[0]) {
        skip_to_digit(s.drop_first())
    } else {
        s
    }
}

/// The decimal digits at the start of `s`.
pub open spec fn digit_run(s: Seq<char>) -> Seq<char>
    decreases s.len(),
{
    if s.len() == 0 || !is_digit(s[0]) {
        seq![]
    } else {
        seq![s[0]] + digit_run(s.drop_first())
    }
}

/// The major version number of a USB version string: the first number in it (0 when
/// it holds none).
pub open spec fn usb_major_version(version: Seq<char>) -> nat {
    digits_value(digit_run(skip_to_digit(version)))
}

/// A USB version of 3.0 or higher: its major version is at least 3.
pub open spec fn usb_high_speed(version: Seq<char>) -> bool {
    usb_major_version(version) >= 3
}

/// Whether a lower-case USB class names a storage device.
pub fn is_usb_storage_class(lower: &str) -> (r: bool)
    ensures
        r == usb_storage_class(lower@),
{
    let v = chars_of(lower);
    contains_lit(v.as_slice(), "mass storage") || contains_lit(v.as_slice(), "storage")
}

/// Whether a lower-case USB class names an input device.
pub fn is_usb_input_class(lower: &str) -> (r: bool)
    ensures
        r == usb_input_class(lower@),
{
    let v = chars_of(lower);
    contains_lit(v.as_slice(), "hid") || contains_lit(v.as_slice(), "human interface")
        || contains_lit(v.as_slice(), "input")
}

/// Whether a lower-case USB class names an audio device.
pub fn is_usb_audio_class(lower: &str) -> (r: bool)
    ensures
        r == usb_audio_class(lower@),
{
    let v = chars_of(lower);
    contains_lit(v.as_slice(), "audio")
}

/// Whether a lower-case USB class names a video device.
pub fn is_usb_video_class(lower: &str) -> (r: bool)
    ensures
        r == usb_video_class(lower@),
{
    let v = chars_of(lower);
    contains_lit(v.as_slice(), "video") || contains_lit(v.as_slice(), "camera")
}

impl USBDevice {
    pub fn vendor_id(&self) -> (r: &str)
        ensures
            r@ == self.vendor_id@,
    {
        self.vendor_id.as_str()
    }

    pub fn product_id(&self) -> (r: &str)
        ensures
            r@ == self.product_id@,
    {
        self.product_id.as_str()
    }

    pub fn vendor_name(&self) -> (r: &str)
        ensures
            r@ == self.vendor_name@,
    {
        self.vendor_name.as_str()
    }

    pub fn product_name(&self) -> (r: &str)
        ensures
            r@ == self.product_name@,
    {
        self.product_name.as_str()
    }

    pub fn device_class(&self) -> (r: &str)
        ensures
            r@ == self.device_class@,
    {
        self.device_class.as_str()
    }

    pub fn usb_version(&self) -> (r: &str)
        ensures
            r@ == self.usb_version@,
    {
        self.usb_version.as_str()
    }

    pub fn is_connected(&self) -> (r: bool)
        ensures
            r == self.connected,
    {
        self.connected
    }

    /// Whether the device is a storage device, by its lower-case class.
    pub fn is_storage_device(&self) -> (r: bool)
        ensures
            r == usb_storage_class(lowercase(self.device_class@)),
            is_ascii_text(self.device_class@) ==> r == usb_storage_class(ascii_lowercase(self.device_class@)),
    {
        let l = to_lowercase(self.device_class.as_str());
        is_usb_storage_class(l.as_str())
    }

    /// Whether the device is an input device, by its lower-case class.
    pub fn is_input_device(&self) -> (r: bool)
        ensures
            r == usb_input_class(lowercase(self.device_class@)),
            is_ascii_text(self.device_class@) ==> r == usb_input_class(ascii_lowercase(self.device_class@)),
    {
        let l = to_lowercase(self.device_class.as_str());
        is_usb_input_class(l.as_str())
    }

    /// Whether the device is an audio device, by its lower-case class.
    pub fn is_audio_device(&self) -> (r: bool)
        ensures
            r == usb_audio_class(lowercase(self.device_class@)),
            is_ascii_text(self.device_class@) ==> r == usb_audio_class(ascii_lowercase(self.device_class@)),
    {
        let l = to_lowercase(self.device_class.as_str());
        is_usb_audio_class(l.as_str())
    }

    /// Whether the device is a video device, by its lower-case class.
    pub fn is_video_device(&self) -> (r: bool)
        ensures
            r == usb_video_class(lowercase(self.device_class@)),
            is_ascii_text(self.device_class@) ==> r == usb_video_class(ascii_lowercase(self.device_class@)),
    {
        let l = to_lowercase(self.device_class.as_str());
        is_usb_video_class(l.as_str())
    }

    /// Whether the device supports USB 3.0 or higher.
    pub fn is_high_speed(&self) -> (r: bool)
        ensures
            r == usb_high_speed(self.usb_version@),
    {
        let v = chars_of(self.usb_version.as_str());
        let n = v.len();
        let mut i: usize = 0;
        proof {
            assert(v@.subrange(0, n as int) =~= v@);
        }
        while i < n && !is_digit_char(v[i])
            invariant
                i <= n,
                n == v@.len(),
                skip_to_digit(v@.subrange(i as int, n as int)) == skip_to_digit(v@),
            decreases n - i,
        {
            proof {
                assert(v@.subrange(i as int, n as int).drop_first() =~= v@.subrange(
                    i + 1,
                    n as int,
                ));
            }
            i += 1;
        }
        let ghost start = i as int;
        proof {
            if i < n {
                assert(is_digit(v@[i as int]));
            }
            assert(skip_to_digit(v@.subrange(i as int, n as int)) == v@.subrange(
                i as int,
                n as int,
            ));
            assert(v@.subrange(start, i as int) + v@.subrange(i as int, n as int) =~= v@.subrange(
                start,
                n as int,
            ));
        }
        let mut capped: u64 = 0;
        while i < n && is_digit_char(v[i])
            invariant
                0 <= start <= i <= n,
                n == v@.len(),
                skip_to_digit(v@) == v@.subrange(start, n as int),
                digit_run(v@.subrange(start, n as int)) == v@.subrange(start, i as int)
                    + digit_run(v@.subrange(i as int, n as int)),
                capped <= 3,
                capped == (if digits_value(v@.subrange(start, i as int)) >= 3 {
                    3
                } else {
                    digits_value(v@.subrange(start, i as int))
                }),
            decreases n - i,
        {
            let d = (v[i] as u32 - 48) as u64;
            proof {
                let t = v@.subrange(i as int, n as int);
                assert(t.drop_first() =~= v@.subrange(i + 1, n as int));
                assert(digit_run(t) == seq![v@[i as int]] + digit_run(v@.subrange(i + 1, n as int)));
                let p = v@.subrange(start, i as int);
                assert(v@.subrange(start, i + 1) =~= p.push(v@[i as int]));
                assert(v@.subrange(start, i + 1).drop_last() =~= p);
                assert(p + (seq![v@[i as int]] + digit_run(v@.subrange(i + 1, n as int)))
                    =~= v@.subrange(start, i + 1) + digit_run(v@.subrange(i + 1, n as int)));
            }
            let next = capped * 10 + d;
            capped = if next >= 3 {
                3
            } else {
                next
            };
            i += 1;
        }
        proof {
            assert(digit_run(v@.subrange(i as int, n as int)) =~= Seq::<char>::empty());
            assert(v@.subrange(start, i as int) + Seq::<char>::empty() =~= v@.subrange(
                start,
                i as int,
            ));
        }
        capped >= 3
    }
}

/// Whether a USB device is an audio device does not depend on the ASCII case of its
/// class: an ASCII class and its upper-case form test alike, as the class in ASCII lower
/// case mentions "audio".
pub proof fn law_audio_class_ignores_case(class: Seq<char>)
    requires
        is_ascii_text(class),
    ensures
        is_ascii_text(ascii_uppercase(class)),
        usb_audio_class(ascii_lowercase(ascii_uppercase(class))) == usb_audio_class(
            ascii_lowercase(class),
        ),
{
    law_ascii_case_folds(class);
}

} // verus!
