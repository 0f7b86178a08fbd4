//! Values returned by a method, and the packed form in which packages hold them.
use crate::bytes::{copied, le_u16, le_u32, read_u16, read_u32};
use crate::text::{
    decimal, hex_u32, hex_u8, push_decimal, push_hex_u32, push_hex_u8, push_str, trim_end_matches,
    utf8_lossy, utf8_text, without_trailing,
};
use vstd::prelude::*;
use vstd::slice::slice_subrange;

verus! {

/// ACPI argument types, as the driver numbers them.
#[derive(Debug, Copy, Clone, PartialEq, Eq, Structural)]
pub enum AcpiArgumentType {
    Integer,
    String,
    Buffer,
    Package,
    PackageEx,
}

/// The type with this number, where there is one.
pub open spec fn argument_type_of(number: u16) -> Option<AcpiArgumentType> {
    if number == 0 {
        Some(AcpiArgumentType::Integer)
    } else if number == 1 {
        Some(AcpiArgumentType::String)
    } else if number == 2 {
        Some(AcpiArgumentType::Buffer)
    } else if number == 3 {
        Some(AcpiArgumentType::Package)
    } else if number == 4 {
        Some(AcpiArgumentType::PackageEx)
    } else {
        None
    }
}

impl AcpiArgumentType {
    /// The number of the type.
    pub open spec fn number(self) -> u16 {
        match self {
            AcpiArgumentType::Integer => 0,
            AcpiArgumentType::String => 1,
            AcpiArgumentType::Buffer => 2,
            AcpiArgumentType::Package => 3,
            AcpiArgumentType::PackageEx => 4,
        }
    }

    /// The number of the type.
    pub fn to_u16(self) -> (number: u16)
        ensures
            number == self.number(),
    {
        match self {
            AcpiArgumentType::Integer => 0,
            AcpiArgumentType::String => 1,
            AcpiArgumentType::Buffer => 2,
            AcpiArgumentType::Package => 3,
            AcpiArgumentType::PackageEx => 4,
        }
    }

    /// The type with this number, or the number where no type has it.
    pub fn try_from(number: u16) -> (r: Result<AcpiArgumentType, u16>)
        ensures
            match argument_type_of(number) {
                Some(t) => r == Ok::<AcpiArgumentType, u16>(t),
                None => r == Err::<AcpiArgumentType, u16>(number),
            },
    {
        match number {
            0 => Ok(AcpiArgumentType::Integer),
            1 => Ok(AcpiArgumentType::String),
            2 => Ok(AcpiArgumentType::Buffer),
            3 => Ok(AcpiArgumentType::Package),
            4 => Ok(AcpiArgumentType::PackageEx),
            _ => Err(number),
        }
    }
}

/// Each type is found by its number, and no number stands for two types.
pub proof fn argument_type_round_trip(t: AcpiArgumentType, number: u16)
    ensures
        argument_type_of(t.number()) == Some(t),
        argument_type_of(number) == Some(t) <==> number == t.number(),
{
}

/// A value returned by an ACPI method evaluation.
#[derive(Debug)]
pub enum AcpiValue {
    /// 32-bit integer.
    Integer(u32),
    /// Null-terminated string.
    String(String),
    /// Raw byte buffer.
    Buffer(Vec<u8>),
    /// Package of nested values.
    Package(Vec<AcpiValue>),
    /// Trailing bytes that could not be parsed as an argument.
    Malformed(Vec<u8>),
}

/// What an [`AcpiValue`] holds.
#[verifier::ext_equal]
pub enum ValueView {
    Integer(u32),
    String(Seq<char>),
    Buffer(Seq<u8>),
    Package(Seq<ValueView>),
    Malformed(Seq<u8>),
}

impl AcpiValue {
    /// What the value holds.
    pub open spec fn model(self) -> ValueView
        decreases self,
    {
        match self {
            AcpiValue::Integer(i) => ValueView::Integer(i),
            AcpiValue::String(s) => ValueView::String(s@),
            AcpiValue::Buffer(b) => ValueView::Buffer(b@),
            AcpiValue::Package(items) => ValueView::Package(
                Seq::new(
                    items@.len(),
                    |i: int|
                        if 0 <= i < items@.len() {
                            items@[i].model()
                        } else {
                            arbitrary()
                        },
                ),
            ),
            AcpiValue::Malformed(b) => ValueView::Malformed(b@),
        }
    }
}

impl View for AcpiValue {
    type V = ValueView;

    open spec fn view(&self) -> ValueView {
        self.model()
    }
}

impl Clone for AcpiValue {
    fn clone(&self) -> (copy: AcpiValue)
        ensures
            copy@ == self@,
        decreases self,
    {
        match self {
            AcpiValue::Integer(i) => AcpiValue::Integer(*i),
            AcpiValue::String(s) => AcpiValue::String(s.clone()),
            AcpiValue::Buffer(b) => AcpiValue::Buffer(copied(b.as_slice())),
            AcpiValue::Package(items) => {
                let mut copies: Vec<AcpiValue> = Vec::new();
                let mut i: usize = 0;
                while i < items.len()
                    invariant
                        i <= items@.len(),
                        copies@.len() == i,
                        *self == AcpiValue::Package(*items),
                        forall|j: int| 0 <= j < i ==> (#[trigger] copies@[j])@ == items@[j]@,
                    decreases items@.len() - i,
                {
                    assert(decreases_to!(self->Package_0 => self->Package_0@[i as int]));
                    let item: AcpiValue = items[i].clone();
                    copies.push(item);
                    i = i + 1;
                }
                let copy: AcpiValue = AcpiValue::Package(copies);
                assert(copy.model()->Package_0 =~= self.model()->Package_0);
                copy
            },
            AcpiValue::Malformed(b) => AcpiValue::Malformed(copied(b.as_slice())),
        }
    }
}

/// What each of the values holds.
pub open spec fn value_views(values: Seq<AcpiValue>) -> Seq<ValueView> {
    values.map_values(|v: AcpiValue| v@)
}

/// Whether the bytes begin with a whole packed value: its type, its length and its data.
pub open spec fn packed_fits(b: Seq<u8>) -> bool {
    b.len() >= 4 && 4 + le_u16(b, 2) <= b.len()
}

/// The values packed in the bytes. Bytes that do not begin with a whole value stand at the end
/// as they are.
pub open spec fn values_of(b: Seq<u8>) -> Seq<ValueView>
    decreases b.len(), 0int,
{
    if b.len() == 0 {
        seq![]
    } else if !packed_fits(b) {
        seq![ValueView::Malformed(b)]
    } else {
        let end = 4 + le_u16(b, 2);
        seq![value_of(le_u16(b, 0), b.subrange(4, end))] + values_of(
            b.subrange(end, b.len() as int),
        )
    }
}

/// The first four bytes, with zeros in place of those that are missing.
pub open spec fn first_four(b: Seq<u8>) -> Seq<u8> {
    Seq::new(
        4,
        |i: int|
            if i < b.len() {
                b[i]
            } else {
                0
            },
    )
}

/// The value of a type and its data. A type without a number of its own is a buffer.
pub open spec fn value_of(type_: u16, data: Seq<u8>) -> ValueView
    decreases data.len(), 1int,
{
    match argument_type_of(type_) {
        Some(AcpiArgumentType::Integer) => ValueView::Integer(le_u32(first_four(data), 0)),
        Some(AcpiArgumentType::String) => ValueView::String(
            without_trailing(utf8_text(data), '\0'),
        ),
        Some(AcpiArgumentType::Package) | Some(AcpiArgumentType::PackageEx) => ValueView::Package(
            values_of(data),
        ),
        _ => ValueView::Buffer(data),
    }
}

/// Parses a packed sequence of values.
pub fn parse_acpi_values(bytes: &[u8]) -> (values: Vec<AcpiValue>)
    ensures
        value_views(values@) == values_of(bytes@),
    decreases bytes@.len(), 0int,
{
    let mut values: Vec<AcpiValue> = Vec::new();
    let mut offset: usize = 0;
    assert(bytes@.subrange(0, bytes@.len() as int) =~= bytes@);
    assert(value_views(values@) + values_of(bytes@) =~= values_of(bytes@));
    while offset < bytes.len()
        invariant_except_break
            offset <= bytes@.len(),
            value_views(values@) + values_of(
                bytes@.subrange(offset as int, bytes@.len() as int),
            ) == values_of(bytes@),
        ensures
            value_views(values@) == values_of(bytes@),
        decreases bytes@.len() - offset,
    {
        let rest: &[u8] = slice_subrange(bytes, offset, bytes.len());
        let ghost head = value_views(values@);
        // Surface a short header or an overrunning length rather than dropping the remainder.
        if rest.len() < 4 || rest.len() - 4 < read_u16(rest, 2) as usize {
            values.push(AcpiValue::Malformed(copied(rest)));
            proof {
                assert(values_of(rest@) == seq![ValueView::Malformed(rest@)]);
                assert(value_views(values@) =~= head + values_of(rest@));
            }
            break;
        }
        let length: usize = read_u16(rest, 2) as usize;
        let body: &[u8] = slice_subrange(rest, 4, 4 + length);
        let value: AcpiValue = acpi_value_from(read_u16(rest, 0), body);
        values.push(value);
        proof {
            let next = (offset + 4 + length) as int;
            let tail = bytes@.subrange(next, bytes@.len() as int);
            assert(rest@.subrange(4 + length as int, rest@.len() as int) =~= tail);
            assert(value_views(values@) =~= head.push(value@));
            assert(head + (seq![value@] + values_of(tail)) =~= head.push(value@) + values_of(tail));
        }
        offset = offset + 4 + length;
        proof {
            if offset == bytes@.len() {
                assert(value_views(values@) + values_of(
                    bytes@.subrange(offset as int, bytes@.len() as int),
                ) =~= value_views(values@));
            }
        }
    }
    values
}

/// Converts a single raw argument (type tag and data bytes) into a value.
/// The value of an integer shares storage with its data bytes.
pub fn acpi_value_from(type_: u16, data: &[u8]) -> (value: AcpiValue)
    ensures
        value@ == value_of(type_, data@),
    decreases data@.len(), 1int,
{
    match AcpiArgumentType::try_from(type_) {
        Ok(AcpiArgumentType::Integer) => {
            let mut bytes: [u8; 4] = [0u8;4];
            let mut i: usize = 0;
            while i < 4 && i < data.len()
                invariant
                    i <= 4,
                    forall|j: int|
                        0 <= j < 4 ==> #[trigger] bytes@[j] == if j < i && j < data@.len() {
                            data@[j]
                        } else {
                            0
                        },
                decreases 4 - i,
            {
                bytes[i] = data[i];
                i = i + 1;
            }
            assert(bytes@ =~= first_four(data@));
            AcpiValue::Integer(read_u32(bytes.as_slice(), 0))
        },
        Ok(AcpiArgumentType::String) => {
            let text: String = utf8_lossy(data);
            AcpiValue::String(trim_end_matches(text.as_str(), '\0').to_owned())
        },
        Ok(AcpiArgumentType::Package) | Ok(AcpiArgumentType::PackageEx) => {
            let items: Vec<AcpiValue> = parse_acpi_values(data);
            let value: AcpiValue = AcpiValue::Package(items);
            proof {
                assert(value.model()->Package_0 =~= value_views(items@));
            }
            value
        },
        _ => AcpiValue::Buffer(copied(data)),
    }
}

/// Each byte as two hexadecimal digits behind a space.
pub open spec fn bytes_text(b: Seq<u8>) -> Seq<char>
    decreases b.len(),
{
    if b.len() == 0 {
        seq![]
    } else {
        bytes_text(b.drop_last()) + " "@ + hex_u8(b.last())
    }
}

/// The text that shows a value.
pub open spec fn text_of(v: ValueView) -> Seq<char>
    decreases v,
{
    match v {
        ValueView::Integer(i) => "Integer: "@ + decimal(i as nat) + " (0x"@ + hex_u32(i) + ")"@,
        ValueView::String(s) => "String: "@ + s,
        ValueView::Buffer(b) => "Buffer ("@ + decimal(b.len()) + " bytes):"@ + bytes_text(b),
        ValueView::Package(items) => "Package ("@ + decimal(items.len()) + " items):"@ + items_text(
            items,
        ),
        ValueView::Malformed(b) => "Malformed trailing data ("@ + decimal(b.len()) + " bytes):"@
            + bytes_text(b),
    }
}

/// The text of each value in parentheses behind a space.
pub open spec fn items_text(items: Seq<ValueView>) -> Seq<char>
    decreases items,
{
    if items.len() == 0 {
        seq![]
    } else {
        items_text(items.drop_last()) + " ("@ + text_of(items.last()) + ")"@
    }
}

/// Appends the text of the bytes to `out`.
fn push_bytes_text(out: &mut String, b: &Vec<u8>)
    ensures
        final(out)@ == old(out)@ + bytes_text(b@),
{
    let mut i: usize = 0;
    assert(b@.take(0) =~= seq![]);
    assert(out@ =~= old(out)@ + bytes_text(b@.take(0)));
    while i < b.len()
        invariant
            i <= b@.len(),
            out@ == old(out)@ + bytes_text(b@.take(i as int)),
        decreases b@.len() - i,
    {
        let ghost before = bytes_text(b@.take(i as int));
        push_str(out, " ");
        push_hex_u8(out, b[i]);
        proof {
            assert(b@.take(i + 1).drop_last() =~= b@.take(i as int));
            assert(old(out)@ + before + " "@ + hex_u8(b@[i as int]) =~= old(out)@ + (before + " "@
                + hex_u8(b@[i as int])));
        }
        i = i + 1;
    }
    assert(b@.take(b@.len() as int) =~= b@);
}

impl AcpiValue {
    /// Appends the text of the value to `out`.
    fn push_text(&self, out: &mut String)
        ensures
            final(out)@ == old(out)@ + text_of(self@),
        decreases self,
    {
        match self {
            AcpiValue::Integer(i) => {
                push_str(out, "Integer: ");
                push_decimal(out, *i as u64);
                push_str(out, " (0x");
                push_hex_u32(out, *i);
                push_str(out, ")");
            },
            AcpiValue::String(s) => {
                push_str(out, "String: ");
                push_str(out, s.as_str());
            },
            AcpiValue::Buffer(b) => {
                push_str(out, "Buffer (");
                push_decimal(out, b.len() as u64);
                push_str(out, " bytes):");
                push_bytes_text(out, b);
            },
            AcpiValue::Package(items) => {
                push_str(out, "Package (");
                push_decimal(out, items.len() as u64);
                push_str(out, " items):");
                let ghost views = self.model()->Package_0;
                let ghost opening = out@;
                let mut i: usize = 0;
                assert(views.take(0) =~= seq![]);
                assert(out@ =~= opening + items_text(views.take(0)));
                while i < items.len()
                    invariant
                        i <= items@.len(),
                        *self == AcpiValue::Package(*items),
                        views == self.model()->Package_0,
                        out@ == opening + items_text(views.take(i as int)),
                    decreases items@.len() - i,
                {
                    let ghost before = items_text(views.take(i as int));
                    push_str(out, " (");
                    assert(decreases_to!(self->Package_0 => self->Package_0@[i as int]));
                    items[i].push_text(out);
                    push_str(out, ")");
                    proof {
                        let item = text_of(views[i as int]);
                        assert(views.take(i + 1).drop_last() =~= views.take(i as int));
                        assert(opening + before + " ("@ + item + ")"@ =~= opening + (before + " ("@
                            + item + ")"@));
                    }
                    i = i + 1;
                }
                assert(views.take(items@.len() as int) =~= views);
            },
            AcpiValue::Malformed(b) => {
                push_str(out, "Malformed trailing data (");
                push_decimal(out, b.len() as u64);
                push_str(out, " bytes):");
                push_bytes_text(out, b);
            },
        }
        assert(out@ =~= old(out)@ + text_of(self@));
    }

    /// The text that shows the value.
    pub fn to_string(&self) -> (text: String)
        ensures
            text@ == text_of(self@),
    {
        let mut text: String = String::new();
        self.push_text(&mut text);
        assert(text@ =~= text_of(self@));
        text
    }
}

/// The models of values hold all that the values hold; that of a package one model for each item,
/// in the order of the items.
pub proof fn value_models(x: u32, s: String, b: Vec<u8>, items: Vec<AcpiValue>, i: int)
    ensures
        AcpiValue::Integer(x)@ == ValueView::Integer(x),
        AcpiValue::String(s)@ == ValueView::String(s@),
        AcpiValue::Buffer(b)@ == ValueView::Buffer(b@),
        AcpiValue::Malformed(b)@ == ValueView::Malformed(b@),
        AcpiValue::Package(items)@ is Package,
        AcpiValue::Package(items)@->Package_0.len() == items@.len(),
        0 <= i < items@.len() ==> AcpiValue::Package(items)@->Package_0[i] == items@[i]@,
        value_views(items@).len() == items@.len(),
        0 <= i < items@.len() ==> value_views(items@)[i] == items@[i]@,
{
}

/// The types are numbered from zero on.
pub proof fn argument_type_numbers()
    ensures
        AcpiArgumentType::Integer.number() == 0,
        AcpiArgumentType::String.number() == 1,
        AcpiArgumentType::Buffer.number() == 2,
        AcpiArgumentType::Package.number() == 3,
        AcpiArgumentType::PackageEx.number() == 4,
{
}

} // verus!
