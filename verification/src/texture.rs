//! GPU textures.
//!
//! Decoding an image file is the shell's work; it reports the decoded
//! pixel layout (channel count and bit depth) and raw size as plain values.
//! This module decides whether the layout is one the renderer uploads,
//! and produces the fixed upload sequence: full mip level zero, mipmap
//! generation, repeat wrapping and linear filtering — nothing configurable.

use crate::gpu::{GpuCommand, PixelFormat, TextureParameter};
use vstd::prelude::*;

verus! {

/// What a texture is used for.
#[derive(Clone, Copy, Debug, PartialEq, Eq, Structural)]
pub enum TextureUsage {
    Diffuse,
    Normal,
}

/// A decoded pixel layout the renderer does not upload, named by its
/// channel count and bit depth.
#[derive(Clone, Copy, Debug, PartialEq, Eq, Structural)]
pub struct UnsupportedColorFormat {
    pub channels: u8,
    pub bits_per_channel: u8,
}

/// The upload format for a decoded pixel layout: three or four 8-bit
/// channels are accepted, anything else is reported back.
pub fn pixel_format_for(channels: u8, bits_per_channel: u8) -> (r: Result<
    PixelFormat,
    UnsupportedColorFormat,
>)
    ensures
        r is Ok <==> (channels == 3 || channels == 4) && bits_per_channel == 8,
        channels == 3 && bits_per_channel == 8 ==> r == Ok::<PixelFormat, UnsupportedColorFormat>(
            PixelFormat::Rgb8,
        ),
        channels == 4 && bits_per_channel == 8 ==> r == Ok::<PixelFormat, UnsupportedColorFormat>(
            PixelFormat::Rgba8,
        ),
        r is Err ==> r->Err_0 == (UnsupportedColorFormat { channels, bits_per_channel }),
{
    if bits_per_channel == 8 && channels == 3 {
        Ok(PixelFormat::Rgb8)
    } else if bits_per_channel == 8 && channels == 4 {
        Ok(PixelFormat::Rgba8)
    } else {
        Err(UnsupportedColorFormat { channels, bits_per_channel })
    }
}

/// Owns one GPU image handle.
#[derive(Clone, Copy, Debug, PartialEq, Eq, Structural)]
pub struct GPUTexture {
    pub id: u32,
    pub usage: TextureUsage,
    pub alive: bool,
}

impl GPUTexture {
    /// The calls that create the texture's contents: bind, set wrapping and
    /// filtering, upload mip level zero, generate the remaining mips.
    pub open spec fn setup_commands(id: u32, format: PixelFormat, width: u32, height: u32) -> Seq<
        GpuCommand,
    > {
        seq![
            GpuCommand::BindTexture(id),
            GpuCommand::TexParameter(TextureParameter::WrapSRepeat),
            GpuCommand::TexParameter(TextureParameter::WrapTRepeat),
            GpuCommand::TexParameter(TextureParameter::MinFilterLinearMipmapLinear),
            GpuCommand::TexParameter(TextureParameter::MagFilterLinear),
            GpuCommand::TexImage2D { format, width, height },
            GpuCommand::GenerateMipmap,
        ]
    }

    /// The texture after its handle has been released.
    pub open spec fn released(self) -> GPUTexture {
        GPUTexture { alive: false, ..self }
    }

    /// What releasing the texture deletes.
    pub open spec fn release_command(self) -> Option<GpuCommand> {
        if self.alive {
            Some(GpuCommand::DeleteTexture(self.id))
        } else {
            None
        }
    }

    /// Wraps a texture handle the shell has just created for a decoded
    /// image, and produces the upload calls.
    pub fn from_decoded_image(
        id: u32,
        usage: TextureUsage,
        format: PixelFormat,
        width: u32,
        height: u32,
    ) -> (r: (GPUTexture, Vec<GpuCommand>))
        ensures
            r.0 == (GPUTexture { id, usage, alive: true }),
            r.1@ == GPUTexture::setup_commands(id, format, width, height),
    {
        let mut cmds: Vec<GpuCommand> = Vec::new();
        cmds.push(GpuCommand::BindTexture(id));
        cmds.push(GpuCommand::TexParameter(TextureParameter::WrapSRepeat));
        cmds.push(GpuCommand::TexParameter(TextureParameter::WrapTRepeat));
        cmds.push(GpuCommand::TexParameter(TextureParameter::MinFilterLinearMipmapLinear));
        cmds.push(GpuCommand::TexParameter(TextureParameter::MagFilterLinear));
        cmds.push(GpuCommand::TexImage2D { format, width, height });
        cmds.push(GpuCommand::GenerateMipmap);
        assert(cmds@ =~= GPUTexture::setup_commands(id, format, width, height));
        (GPUTexture { id, usage, alive: true }, cmds)
    }

    /// Makes this texture current.
    pub fn bind(&self) -> (cmd: GpuCommand)
        requires
            self.alive,
        ensures
            cmd == GpuCommand::BindTexture(self.id),
    {
        GpuCommand::BindTexture(self.id)
    }

    /// Gives up the handle; deletes it exactly once.
    pub fn release(&mut self) -> (cmd: Option<GpuCommand>)
        ensures
            cmd == old(self).release_command(),
            *final(self) == old(self).released(),
    {
        if self.alive {
            self.alive = false;
            Some(GpuCommand::DeleteTexture(self.id))
        } else {
            None
        }
    }
}

} // verus!
