//! The current field: its models, the names of its models, its trigger
//! lines.
//!
//! The address catalogue does not list where the game keeps the objects of
//! the field models, the table of their lights and the trigger lines, so the
//! caller names these addresses.
//!
//! A light is a record of 36 bytes, of which the last 28 are seven floats:
//! where the light stands, then its color as blue, green, red and alpha. The
//! lights of a model hang on a light object: the addresses of its three
//! lights at 8, 12 and 16 bytes into it, and the color of the light all
//! around 36 bytes into it. The light table holds the address of the light
//! object of each model, 0 for a model without lights.

use crate::ff7::addresses::FF7Addresses;
use crate::ff7::data::kernel::{name_views, unknown_name};
use crate::ff7::ff7text::utf8_text;
use crate::ff7::types::field::{
    FieldData, FieldLightWords, FieldLineObj, FieldModel, LightWords,
};
use crate::utils::cursor::{
    get_i16, get_i32, get_u16, get_u32, i16_at, i32_at, u16_at, u32_at, u8_at,
};
use crate::utils::error::GameError;
use crate::utils::memory::{stored, stored_all, u32_bytes, MemoryWrite, ProcessMemory};
use vstd::prelude::*;
use vstd::utf8::{decode_utf8, valid_utf8};

verus! {

/// The number of trigger lines of a field.
pub const FIELD_LINES: usize = 32;

/// The size of the record of one trigger line.
pub const FIELD_LINE_SIZE: usize = 0x18;

/// The size of what is read of the trigger lines: up to the entity of the
/// last one.
pub const FIELD_LINES_READ: usize = 758;

/// The size of the record of one field model.
pub const FIELD_MODEL_SIZE: usize = 400;

/// The size of the object of one field model.
pub const FIELD_MODEL_OBJ_SIZE: usize = 0x88;

/// The trigger line whose record starts at `at` in `lines`.
pub open spec fn line_at(lines: Seq<u8>, at: int) -> FieldLineObj {
    FieldLineObj {
        x1: i16_at(lines, at),
        y1: i16_at(lines, at + 0x02),
        z1: i16_at(lines, at + 0x04),
        x2: i16_at(lines, at + 0x06),
        y2: i16_at(lines, at + 0x08),
        z2: i16_at(lines, at + 0x0a),
        enabled: u8_at(lines, at + 0x0c),
        entity: u8_at(lines, at + 0x0d),
    }
}

/// The trigger lines among the first `n` that belong to an entity, in their
/// order: a line belongs to one when its entity is not 0.
pub open spec fn used_lines(lines: Seq<u8>, n: nat) -> Seq<FieldLineObj>
    decreases n,
{
    if n == 0 {
        Seq::empty()
    } else {
        let before = used_lines(lines, (n - 1) as nat);
        let line = line_at(lines, FIELD_LINE_SIZE * (n - 1));
        if line.entity > 0 {
            before.push(line)
        } else {
            before
        }
    }
}

/// Reads the trigger lines of the current field that belong to an entity.
/// The 32 records at `field_line_objs` are read as a whole, up to the entity
/// of the last one.
pub fn read_field_line_objs(mem: &ProcessMemory, field_line_objs: u32) -> (r: Result<
    Vec<FieldLineObj>,
    GameError,
>)
    ensures
        if mem.readable(field_line_objs as int, FIELD_LINES_READ as int) {
            r matches Ok(lines) && lines@ == used_lines(
                mem.span(field_line_objs as int, FIELD_LINES_READ as int),
                FIELD_LINES as nat,
            )
        } else {
            r == Err::<Vec<FieldLineObj>, GameError>(
                ProcessMemory::fault(field_line_objs as int, FIELD_LINES_READ as int),
            )
        },
{
    let block = mem.read(field_line_objs as u64, FIELD_LINES_READ)?;
    let lines = block.as_slice();
    let mut used: Vec<FieldLineObj> = Vec::new();
    let mut i: usize = 0;
    while i < FIELD_LINES
        invariant
            i <= FIELD_LINES,
            lines@.len() == FIELD_LINES_READ,
            used@ == used_lines(lines@, i as nat),
        decreases FIELD_LINES - i,
    {
        let at = i * FIELD_LINE_SIZE;
        let line = FieldLineObj {
            x1: get_i16(lines, at),
            y1: get_i16(lines, at + 0x02),
            z1: get_i16(lines, at + 0x04),
            x2: get_i16(lines, at + 0x06),
            y2: get_i16(lines, at + 0x08),
            z2: get_i16(lines, at + 0x0a),
            enabled: lines[at + 0x0c],
            entity: lines[at + 0x0d],
        };
        if line.entity > 0 {
            used.push(line);
        }
        i += 1;
    }
    Ok(used)
}

/// The height of a field model: what the game holds, with 10 added. The sum
/// is 32 bits wide and starts over behind the greatest number.
pub open spec fn model_height(z: i32) -> i32 {
    if z + 10 > i32::MAX {
        (z + 10 - 0x1_0000_0000) as i32
    } else {
        (z + 10) as i32
    }
}

/// The field model whose record starts at `at` of `records` and whose
/// object starts at `obj_at` of `objects`. The records are read from 4 bytes
/// into the first one on, the objects from 0x5F bytes into the first one on.
pub open spec fn field_model_at(
    records: Seq<u8>,
    at: int,
    objects: Seq<u8>,
    obj_at: int,
) -> FieldModel {
    FieldModel {
        x: i32_at(records, at),
        y: i32_at(records, at + 4),
        z: model_height(i32_at(records, at + 8)),
        direction: u8_at(records, at + 0x18),
        triangle: u16_at(objects, obj_at + 0x19),
        collision: u8_at(objects, obj_at),
        interaction: u8_at(objects, obj_at + 0x02),
        visible: u8_at(objects, obj_at + 0x03),
    }
}

/// `r` is what a read of the `count` models at `records` with their objects
/// at `objects` gives: the records are read as a whole, from their first
/// byte that is used to their last, then the objects in the same way.
pub open spec fn models_read(
    mem: &ProcessMemory,
    records: int,
    objects: int,
    count: int,
    r: Result<Vec<FieldModel>, GameError>,
) -> bool {
    let records_size = FIELD_MODEL_SIZE * (count - 1) + 0x19;
    let objects_size = FIELD_MODEL_OBJ_SIZE * (count - 1) + 0x1b;
    if !mem.readable(records + 4, records_size) {
        r == Err::<Vec<FieldModel>, GameError>(ProcessMemory::fault(records + 4, records_size))
    } else if !mem.readable(objects + 0x5f, objects_size) {
        r == Err::<Vec<FieldModel>, GameError>(ProcessMemory::fault(objects + 0x5f, objects_size))
    } else {
        &&& r matches Ok(models)
        &&& models@.len() == count
        &&& forall|i: int|
            0 <= i < count ==> #[trigger] models@[i] == field_model_at(
                mem.span(records + 4, records_size),
                FIELD_MODEL_SIZE * i,
                mem.span(objects + 0x5f, objects_size),
                FIELD_MODEL_OBJ_SIZE * i,
            )
    }
}

/// `r` is what a read of the models of the current field gives: their
/// number, then the address of their records, then the models. Where that
/// address is 0 or there is no model, nothing more is read.
pub open spec fn field_models_read(
    mem: &ProcessMemory,
    addresses: FF7Addresses,
    field_models_objs: u32,
    r: Result<Vec<FieldModel>, GameError>,
) -> bool {
    match mem.get_u8(addresses.field_num_models as int) {
        Err(e) => r == Err::<Vec<FieldModel>, GameError>(e),
        Ok(count) => match mem.get_u32(addresses.field_models_ptr as int) {
            Err(e) => r == Err::<Vec<FieldModel>, GameError>(e),
            Ok(records) => if records == 0 || count == 0 {
                r matches Ok(models) && models@.len() == 0
            } else {
                models_read(mem, records as int, field_models_objs as int, count as int, r)
            },
        },
    }
}

/// Reads the models of the current field. Their objects start at
/// `field_models_objs`.
pub fn read_field_models(
    mem: &ProcessMemory,
    addresses: &FF7Addresses,
    field_models_objs: u32,
) -> (r: Result<Vec<FieldModel>, GameError>)
    ensures
        field_models_read(mem, *addresses, field_models_objs, r),
{
    let mut models: Vec<FieldModel> = Vec::new();
    let count = mem.read_u8(addresses.field_num_models as u64)? as usize;
    let model_ptr = mem.read_u32(addresses.field_models_ptr as u64)?;
    if model_ptr == 0 || count == 0 {
        return Ok(models);
    }
    let records_size: usize = FIELD_MODEL_SIZE * (count - 1) + 0x19;
    let objects_size: usize = FIELD_MODEL_OBJ_SIZE * (count - 1) + 0x1b;
    let record_block = mem.read(model_ptr as u64 + 4, records_size)?;
    let object_block = mem.read(field_models_objs as u64 + 0x5f, objects_size)?;
    let records = record_block.as_slice();
    let objects = object_block.as_slice();
    let mut i: usize = 0;
    while i < count
        invariant
            i <= count,
            0 < count <= 255,
            records@.len() == FIELD_MODEL_SIZE * (count - 1) + 0x19,
            objects@.len() == FIELD_MODEL_OBJ_SIZE * (count - 1) + 0x1b,
            models@.len() == i,
            forall|k: int|
                0 <= k < i ==> #[trigger] models@[k] == field_model_at(
                    records@,
                    FIELD_MODEL_SIZE * k,
                    objects@,
                    FIELD_MODEL_OBJ_SIZE * k,
                ),
        decreases count - i,
    {
        let at = i * FIELD_MODEL_SIZE;
        let obj_at = i * FIELD_MODEL_OBJ_SIZE;
        let z = get_i32(records, at + 8);
        let model = FieldModel {
            x: get_i32(records, at),
            y: get_i32(records, at + 4),
            z: z.wrapping_add(10),
            direction: records[at + 0x18],
            triangle: get_u16(objects, obj_at + 0x19),
            collision: objects[obj_at],
            interaction: objects[obj_at + 0x02],
            visible: objects[obj_at + 0x03],
        };
        assert(model.z == model_height(z));
        models.push(model);
        i += 1;
    }
    Ok(models)
}

/// The name that the bytes `bytes` hold as UTF-8, or [`unknown_name`] where
/// they hold none.
pub open spec fn model_name(bytes: Seq<u8>) -> Seq<char> {
    if valid_utf8(bytes) {
        decode_utf8(bytes)
    } else {
        unknown_name()
    }
}

/// Where the list of `left` animations that starts at `at` ends: each
/// animation is a 16-bit name size, then the name and 2 bytes more. The
/// failure of the first size that cannot be read, if there is one.
pub open spec fn animations_end(mem: &ProcessMemory, at: int, left: nat) -> Result<int, GameError>
    decreases left,
{
    if left == 0 {
        Ok(at)
    } else {
        match mem.get_u16(at) {
            Err(e) => Err(e),
            Ok(size) => animations_end(mem, at + size + 4, (left - 1) as nat),
        }
    }
}

/// The name of the model whose entry starts at `at`, and where the next
/// entry starts. An entry is a 16-bit name size, the name, 14 bytes, the
/// number of animations and 30 bytes more, then the animations.
pub open spec fn model_entry(mem: &ProcessMemory, at: int) -> Result<(Seq<char>, int), GameError> {
    match mem.get_u16(at) {
        Err(e) => Err(e),
        Ok(size) => if !mem.readable(at + 2, size as int) {
            Err(ProcessMemory::fault(at + 2, size as int))
        } else {
            match mem.get_u16(at + size + 16) {
                Err(e) => Err(e),
                Ok(animations) => match animations_end(mem, at + size + 48, animations as nat) {
                    Err(e) => Err(e),
                    Ok(next) => Ok((model_name(mem.span(at + 2, size as int)), next)),
                },
            }
        },
    }
}

/// The names `names` followed by those of the `left` models whose entries
/// start at `at`, or the failure of the first read that fails.
pub open spec fn model_names(
    mem: &ProcessMemory,
    at: int,
    left: nat,
    names: Seq<Seq<char>>,
) -> Result<Seq<Seq<char>>, GameError>
    decreases left,
{
    if left == 0 {
        Ok(names)
    } else {
        match model_entry(mem, at) {
            Err(e) => Err(e),
            Ok((name, next)) => model_names(mem, next, (left - 1) as nat, names.push(name)),
        }
    }
}

/// `r` is the field with the id `id` and the raw name `name`, without model
/// names.
pub open spec fn bare_field(id: u16, name: Seq<u8>, r: Result<FieldData, GameError>) -> bool {
    &&& r matches Ok(data)
    &&& data.field_id == id
    &&& data.field_name@ == name
    &&& data.field_model_count == 0
    &&& data.field_model_names@.len() == 0
}

/// `r` is what a read of the current field gives: its id, the 16 bytes of
/// its name, the address of its data, and out of the third section of that
/// data the number of models and their names. Where the address of the data
/// is 0, the field has no model names.
pub open spec fn field_data_read(
    mem: &ProcessMemory,
    addresses: FF7Addresses,
    r: Result<FieldData, GameError>,
) -> bool {
    match mem.get_u16(addresses.field_id as int) {
        Err(e) => r == Err::<FieldData, GameError>(e),
        Ok(id) => if !mem.readable(addresses.field_name as int, 16) {
            r == Err::<FieldData, GameError>(ProcessMemory::fault(addresses.field_name as int, 16))
        } else {
            let name = mem.span(addresses.field_name as int, 16);
            match mem.get_u32(addresses.field_data_ptr as int) {
                Err(e) => r == Err::<FieldData, GameError>(e),
                Ok(data) => if data == 0 {
                    bare_field(id, name, r)
                } else {
                    match mem.get_u32(data + 0x0e) {
                        Err(e) => r == Err::<FieldData, GameError>(e),
                        Ok(offset) => {
                            let section = data + offset + 4;
                            match mem.get_u16(section + 2) {
                                Err(e) => r == Err::<FieldData, GameError>(e),
                                Ok(count) => match model_names(
                                    mem,
                                    section + 6,
                                    count as nat,
                                    Seq::empty(),
                                ) {
                                    Err(e) => r == Err::<FieldData, GameError>(e),
                                    Ok(names) => {
                                        &&& r matches Ok(field)
                                        &&& field.field_id == id
                                        &&& field.field_name@ == name
                                        &&& field.field_model_count == count
                                        &&& name_views(field.field_model_names@) == names
                                    },
                                },
                            }
                        },
                    }
                },
            }
        },
    }
}

/// The most that one model entry takes: a name of 65535 bytes, 48 bytes
/// more, and 65535 animations of 65539 bytes.
pub const MAX_ENTRY_SIZE: u64 = 4295163948;

/// Where the list of `count` animations that starts at `at` ends.
fn skip_animations(mem: &ProcessMemory, at: u64, count: u16) -> (r: Result<u64, GameError>)
    requires
        at <= 0x4_0000_0000_0000,
    ensures
        match animations_end(mem, at as int, count as nat) {
            Ok(end) => r == Ok::<u64, GameError>(end as u64) && at <= end <= at + 65539 * count,
            Err(e) => r == Err::<u64, GameError>(e),
        },
{
    let mut cur = at;
    let mut done: u16 = 0;
    while done < count
        invariant
            done <= count,
            at <= cur <= at + 65539 * done,
            at <= 0x4_0000_0000_0000,
            animations_end(mem, at as int, count as nat) == animations_end(
                mem,
                cur as int,
                (count - done) as nat,
            ),
        decreases count - done,
    {
        let size = mem.read_u16(cur)?;
        cur = cur + size as u64 + 4;
        done += 1;
    }
    Ok(cur)
}

/// The name of the model whose entry starts at `at`, and where the next
/// entry starts.
fn read_model_entry(mem: &ProcessMemory, at: u64) -> (r: Result<(String, u64), GameError>)
    requires
        at <= 0x2_0000_0000_0000,
    ensures
        match model_entry(mem, at as int) {
            Ok((name, next)) => {
                &&& r matches Ok((n, end))
                &&& n@ == name
                &&& end == next
                &&& at <= end <= at + MAX_ENTRY_SIZE
            },
            Err(e) => r == Err::<(String, u64), GameError>(e),
        },
{
    let size = mem.read_u16(at)?;
    let bytes = mem.read(at + 2, size as usize)?;
    let animations = mem.read_u16(at + size as u64 + 16)?;
    let end = skip_animations(mem, at + size as u64 + 48, animations)?;
    let name = match utf8_text(bytes) {
        Some(name) => name,
        None => "???".to_string(),
    };
    Ok((name, end))
}

/// Reads the current field: its id, its raw name and the names of its
/// models.
#[verifier::loop_isolation(false)]
pub fn read_field_data(mem: &ProcessMemory, addresses: &FF7Addresses) -> (r: Result<
    FieldData,
    GameError,
>)
    ensures
        field_data_read(mem, *addresses, r),
{
    let field_id = mem.read_u16(addresses.field_id as u64)?;
    let field_name = mem.read(addresses.field_name as u64, 16)?;
    let field_data_addr = mem.read_u32(addresses.field_data_ptr as u64)?;
    if field_data_addr == 0 {
        return Ok(
            FieldData { field_id, field_name, field_model_count: 0, field_model_names: Vec::new() },
        );
    }
    let section3_offset = mem.read_u32(field_data_addr as u64 + 0x0e)?;
    let section3_addr = field_data_addr as u64 + section3_offset as u64 + 4;
    let field_model_count = mem.read_u16(section3_addr + 2)?;
    let models_addr = section3_addr + 6;
    let mut field_model_names: Vec<String> = Vec::new();
    let mut at = models_addr;
    let mut done: u16 = 0;
    proof {
        assert(name_views(field_model_names@) =~= Seq::<Seq<char>>::empty());
    }
    while done < field_model_count
        invariant
            done <= field_model_count,
            models_addr <= 0x2_0000_0010,
            models_addr <= at <= models_addr + MAX_ENTRY_SIZE * done,
            model_names(mem, models_addr as int, field_model_count as nat, Seq::empty())
                == model_names(
                mem,
                at as int,
                (field_model_count - done) as nat,
                name_views(field_model_names@),
            ),
        decreases field_model_count - done,
    {
        let ghost before = name_views(field_model_names@);
        let (name, next) = read_model_entry(mem, at)?;
        field_model_names.push(name);
        assert(name_views(field_model_names@) =~= before.push(name@));
        at = next;
        done += 1;
    }
    Ok(FieldData { field_id, field_name, field_model_count, field_model_names })
}

/// How far into its record the floats of a light start.
pub const LIGHT_FLOATS: usize = 8;

/// The size of the floats of a light.
pub const LIGHT_FLOATS_SIZE: usize = 28;

/// How far into the light object the color of the light all around starts.
pub const GLOBAL_COLOR: usize = 36;

/// The light whose seven floats are the bytes `floats`.
pub open spec fn light_of(floats: Seq<u8>) -> LightWords {
    LightWords {
        x: u32_at(floats, 0),
        y: u32_at(floats, 4),
        z: u32_at(floats, 8),
        blue: u32_at(floats, 12),
        green: u32_at(floats, 16),
        red: u32_at(floats, 20),
        alpha: u32_at(floats, 24),
    }
}

/// The 28 bytes of the floats of a light.
pub open spec fn light_bytes(light: LightWords) -> Seq<u8> {
    u32_bytes(light.x) + u32_bytes(light.y) + u32_bytes(light.z) + u32_bytes(light.blue)
        + u32_bytes(light.green) + u32_bytes(light.red) + u32_bytes(light.alpha)
}

/// The 16 bytes of the color of the light all around.
pub open spec fn global_color_bytes(lights: FieldLightWords) -> Seq<u8> {
    u32_bytes(lights.global_blue) + u32_bytes(lights.global_green) + u32_bytes(
        lights.global_red,
    ) + u32_bytes(lights.global_alpha)
}

/// What a read of the light whose record starts at `light_ptr` gives.
pub open spec fn light_read(mem: &ProcessMemory, light_ptr: int) -> Result<LightWords, GameError> {
    if mem.readable(light_ptr + LIGHT_FLOATS, LIGHT_FLOATS_SIZE as int) {
        Ok(light_of(mem.span(light_ptr + LIGHT_FLOATS, LIGHT_FLOATS_SIZE as int)))
    } else {
        Err(ProcessMemory::fault(light_ptr + LIGHT_FLOATS, LIGHT_FLOATS_SIZE as int))
    }
}

/// Reads the light whose record starts at `light_ptr`: its seven floats, as
/// a whole.
pub fn read_light_definition(mem: &ProcessMemory, light_ptr: u32) -> (r: Result<
    LightWords,
    GameError,
>)
    ensures
        r == light_read(mem, light_ptr as int),
{
    let block = mem.read(light_ptr as u64 + LIGHT_FLOATS as u64, LIGHT_FLOATS_SIZE)?;
    let floats = block.as_slice();
    Ok(
        LightWords {
            x: get_u32(floats, 0),
            y: get_u32(floats, 4),
            z: get_u32(floats, 8),
            blue: get_u32(floats, 12),
            green: get_u32(floats, 16),
            red: get_u32(floats, 20),
            alpha: get_u32(floats, 24),
        },
    )
}

/// The lights of a model without lights: every float is 0.
pub open spec fn no_lights() -> FieldLightWords {
    let dark = LightWords { x: 0, y: 0, z: 0, blue: 0, green: 0, red: 0, alpha: 0 };
    FieldLightWords {
        global_blue: 0,
        global_green: 0,
        global_red: 0,
        global_alpha: 0,
        light1: dark,
        light2: dark,
        light3: dark,
    }
}

/// What a read of the lights that hang on the light object at `object`
/// gives: the addresses of the three lights are read first, then the color
/// of the light all around, then the lights in their order.
pub open spec fn lights_of_object(mem: &ProcessMemory, object: int) -> Result<
    FieldLightWords,
    GameError,
> {
    if !mem.readable(object + 8, 12) {
        Err(ProcessMemory::fault(object + 8, 12))
    } else if !mem.readable(object + GLOBAL_COLOR, 16) {
        Err(ProcessMemory::fault(object + GLOBAL_COLOR, 16))
    } else {
        let pointers = mem.span(object + 8, 12);
        let color = mem.span(object + GLOBAL_COLOR, 16);
        match light_read(mem, u32_at(pointers, 0) as int) {
            Err(e) => Err(e),
            Ok(light1) => match light_read(mem, u32_at(pointers, 4) as int) {
                Err(e) => Err(e),
                Ok(light2) => match light_read(mem, u32_at(pointers, 8) as int) {
                    Err(e) => Err(e),
                    Ok(light3) => Ok(
                        FieldLightWords {
                            global_blue: u32_at(color, 0),
                            global_green: u32_at(color, 4),
                            global_red: u32_at(color, 8),
                            global_alpha: u32_at(color, 12),
                            light1,
                            light2,
                            light3,
                        },
                    ),
                },
            },
        }
    }
}

/// What a read of the lights of field model `model_index` gives. A model
/// without a light object has [`no_lights`].
pub open spec fn field_lights_read(
    mem: &ProcessMemory,
    model_index: u32,
    field_light_table: u32,
) -> Result<FieldLightWords, GameError> {
    match mem.get_u32(field_light_table + 4 * model_index) {
        Err(e) => Err(e),
        Ok(object) => if object == 0 {
            Ok(no_lights())
        } else {
            lights_of_object(mem, object as int)
        },
    }
}

/// Reads the lights of field model `model_index` out of the light table at
/// `field_light_table`.
pub fn read_field_lights(mem: &ProcessMemory, model_index: u32, field_light_table: u32) -> (r:
    Result<FieldLightWords, GameError>)
    ensures
        r == field_lights_read(mem, model_index, field_light_table),
{
    let entry = field_light_table as u64 + 4 * (model_index as u64);
    let light_obj_ptr = mem.read_u32(entry)?;
    if light_obj_ptr == 0 {
        let dark = LightWords { x: 0, y: 0, z: 0, blue: 0, green: 0, red: 0, alpha: 0 };
        return Ok(
            FieldLightWords {
                global_blue: 0,
                global_green: 0,
                global_red: 0,
                global_alpha: 0,
                light1: dark,
                light2: dark,
                light3: dark,
            },
        );
    }
    let object = light_obj_ptr as u64;
    let pointer_block = mem.read(object + 8, 12)?;
    let color_block = mem.read(object + GLOBAL_COLOR as u64, 16)?;
    let pointers = pointer_block.as_slice();
    let color = color_block.as_slice();
    let light1 = read_light_definition(mem, get_u32(pointers, 0))?;
    let light2 = read_light_definition(mem, get_u32(pointers, 4))?;
    let light3 = read_light_definition(mem, get_u32(pointers, 8))?;
    Ok(
        FieldLightWords {
            global_blue: get_u32(color, 0),
            global_green: get_u32(color, 4),
            global_red: get_u32(color, 8),
            global_alpha: get_u32(color, 12),
            light1,
            light2,
            light3,
        },
    )
}

/// Puts the four bytes of `word` behind `bytes`, the low byte first.
fn push_word(bytes: &mut Vec<u8>, word: u32)
    ensures
        final(bytes)@ == old(bytes)@ + u32_bytes(word),
{
    bytes.push((word % 256) as u8);
    bytes.push((word / 256 % 256) as u8);
    bytes.push((word / 65536 % 256) as u8);
    bytes.push((word / 16777216) as u8);
    assert(bytes@ =~= old(bytes)@ + u32_bytes(word));
}

/// The 28 bytes of the floats of `light`.
fn light_floats(light: &LightWords) -> (bytes: Vec<u8>)
    ensures
        bytes@ == light_bytes(*light),
{
    let mut bytes: Vec<u8> = Vec::new();
    push_word(&mut bytes, light.x);
    push_word(&mut bytes, light.y);
    push_word(&mut bytes, light.z);
    push_word(&mut bytes, light.blue);
    push_word(&mut bytes, light.green);
    push_word(&mut bytes, light.red);
    push_word(&mut bytes, light.alpha);
    assert(bytes@ =~= light_bytes(*light));
    bytes
}

/// Writes the light whose record starts at `light_ptr`: its seven floats, as
/// a whole.
pub fn write_light_definition(mem: &mut ProcessMemory, light_ptr: u32, light: &LightWords) -> (r:
    Result<(), GameError>)
    ensures
        stored(old(mem), final(mem), light_ptr + LIGHT_FLOATS, light_bytes(*light), r),
{
    let bytes = light_floats(light);
    mem.write(light_ptr as u64 + LIGHT_FLOATS as u64, bytes.as_slice())
}

/// The writes that put the lights `lights` on the light object at `object`,
/// whose three lights lie at the addresses held in `pointers`: the three
/// lights in their order, then the color of the light all around.
pub open spec fn lights_plan(object: int, pointers: Seq<u8>, lights: FieldLightWords) -> Seq<
    (u64, Seq<u8>),
> {
    seq![
        ((u32_at(pointers, 0) + LIGHT_FLOATS) as u64, light_bytes(lights.light1)),
        ((u32_at(pointers, 4) + LIGHT_FLOATS) as u64, light_bytes(lights.light2)),
        ((u32_at(pointers, 8) + LIGHT_FLOATS) as u64, light_bytes(lights.light3)),
        ((object + GLOBAL_COLOR) as u64, global_color_bytes(lights)),
    ]
}

/// What a write of the lights of field model `model_index` does. The number
/// of models is read first and the index refused if there is no such model;
/// then the address of the light object, which must not be 0; then the
/// addresses of the three lights. Nothing is written before all of these are
/// read. Then the writes of [`lights_plan`] are carried out.
pub open spec fn field_lights_written(
    before: &ProcessMemory,
    after: &ProcessMemory,
    lights: FieldLightWords,
    model_index: u32,
    addresses: FF7Addresses,
    field_light_table: u32,
    r: Result<(), GameError>,
) -> bool {
    let refused = |e: GameError| r == Err::<(), GameError>(e) && *after == *before;
    match before.get_u8(addresses.field_num_models as int) {
        Err(e) => refused(e),
        Ok(models) => if model_index >= models {
            refused(GameError::ModelIndexOutOfRange { index: model_index, models: models as u32 })
        } else {
            match before.get_u32(field_light_table + 4 * model_index) {
                Err(e) => refused(e),
                Ok(object) => if object == 0 {
                    refused(GameError::NoLightObject { index: model_index })
                } else if !before.readable(object + 8, 12) {
                    refused(ProcessMemory::fault(object + 8, 12))
                } else {
                    stored_all(
                        before,
                        after,
                        lights_plan(object as int, before.span(object + 8, 12), lights),
                        r,
                    )
                },
            }
        },
    }
}

/// Writes the lights of field model `model_index`, whose light object the
/// light table at `field_light_table` names.
pub fn write_field_lights(
    mem: &mut ProcessMemory,
    lights: &FieldLightWords,
    model_index: u32,
    addresses: &FF7Addresses,
    field_light_table: u32,
) -> (r: Result<(), GameError>)
    ensures
        field_lights_written(
            old(mem),
            final(mem),
            *lights,
            model_index,
            *addresses,
            field_light_table,
            r,
        ),
{
    let models_num = mem.read_u8(addresses.field_num_models as u64)? as u32;
    if model_index >= models_num {
        return Err(GameError::ModelIndexOutOfRange { index: model_index, models: models_num });
    }
    let light_obj_ptr = mem.read_u32(field_light_table as u64 + 4 * (model_index as u64))?;
    if light_obj_ptr == 0 {
        return Err(GameError::NoLightObject { index: model_index });
    }
    let object = light_obj_ptr as u64;
    let pointer_block = mem.read(object + 8, 12)?;
    let pointers = pointer_block.as_slice();
    let mut color: Vec<u8> = Vec::new();
    push_word(&mut color, lights.global_blue);
    push_word(&mut color, lights.global_green);
    push_word(&mut color, lights.global_red);
    push_word(&mut color, lights.global_alpha);
    assert(color@ =~= global_color_bytes(*lights));
    let mut plan: Vec<MemoryWrite> = Vec::new();
    plan.push(
        MemoryWrite {
            address: get_u32(pointers, 0) as u64 + LIGHT_FLOATS as u64,
            bytes: light_floats(&lights.light1),
        },
    );
    plan.push(
        MemoryWrite {
            address: get_u32(pointers, 4) as u64 + LIGHT_FLOATS as u64,
            bytes: light_floats(&lights.light2),
        },
    );
    plan.push(
        MemoryWrite {
            address: get_u32(pointers, 8) as u64 + LIGHT_FLOATS as u64,
            bytes: light_floats(&lights.light3),
        },
    );
    plan.push(MemoryWrite { address: object + GLOBAL_COLOR as u64, bytes: color });
    assert(crate::utils::memory::write_views(plan@) =~= lights_plan(
        object as int,
        pointers@,
        *lights,
    ));
    mem.write_all(&plan)
}

} // verus!
