//! The virtual link: the pair of coupled pseudo-device endpoints and the
//! argument lists handed to the external programs around it.
//!
//! The device-pairing facility and the serial monitor are separate
//! processes; the library fixes exactly what they are asked to do. The
//! endpoint paths are configuration with well-known defaults, not
//! ambient constants.

use crate::textfmt::{append_bytes, dec_bytes, u64_to_dec};
use vstd::prelude::*;

verus! {

/// Default path of the monitor-side endpoint, `/tmp/ttyV0` in ASCII.
pub open spec fn default_monitor_path() -> Seq<u8> {
    seq![47u8, 116u8, 109u8, 112u8, 47u8, 116u8, 116u8, 121u8, 86u8, 48u8]
}

/// Default path of the writer-side endpoint, `/tmp/ttyV1` in ASCII.
pub open spec fn default_writer_path() -> Seq<u8> {
    seq![47u8, 116u8, 109u8, 112u8, 47u8, 116u8, 116u8, 121u8, 86u8, 49u8]
}

/// The flag `-d` in ASCII.
pub open spec fn dash_d_bytes() -> Seq<u8> {
    seq![45u8, 100u8]
}

/// The prefix `pty,raw,echo=0,link=` in ASCII: each endpoint is asked to
/// be a raw, unechoed pseudo-terminal linked at the given path.
pub open spec fn pty_prefix_bytes() -> Seq<u8> {
    seq![112u8, 116u8, 121u8, 44u8, 114u8, 97u8, 119u8, 44u8, 101u8, 99u8, 104u8, 111u8, 61u8,
        48u8, 44u8, 108u8, 105u8, 110u8, 107u8, 61u8]
}

/// The pairing-facility argument that requests one endpoint at a path.
pub open spec fn pty_arg_bytes(path: Seq<u8>) -> Seq<u8> {
    pty_prefix_bytes() + path
}

/// The flag `--port` in ASCII.
pub open spec fn port_flag_bytes() -> Seq<u8> {
    seq![45u8, 45u8, 112u8, 111u8, 114u8, 116u8]
}

/// The flag `--baud` in ASCII.
pub open spec fn baud_flag_bytes() -> Seq<u8> {
    seq![45u8, 45u8, 98u8, 97u8, 117u8, 100u8]
}

/// The flag `--plot` in ASCII.
pub open spec fn plot_flag_bytes() -> Seq<u8> {
    seq![45u8, 45u8, 112u8, 108u8, 111u8, 116u8]
}

/// Where the two endpoints of the virtual link live on the filesystem.
pub struct LinkConfig {
    /// Path of the read side the monitor attaches to.
    pub monitor_path: Vec<u8>,
    /// Path of the write side the streamer opens.
    pub writer_path: Vec<u8>,
}

impl Default for LinkConfig {
    /// The well-known default endpoint paths.
    fn default() -> (c: Self)
        ensures
            c.monitor_path@ == default_monitor_path(),
            c.writer_path@ == default_writer_path(),
    {
        let mut monitor_path: Vec<u8> = Vec::new();
        monitor_path.push(47);
        monitor_path.push(116);
        monitor_path.push(109);
        monitor_path.push(112);
        monitor_path.push(47);
        monitor_path.push(116);
        monitor_path.push(116);
        monitor_path.push(121);
        monitor_path.push(86);
        monitor_path.push(48);
        let mut writer_path: Vec<u8> = Vec::new();
        writer_path.push(47);
        writer_path.push(116);
        writer_path.push(109);
        writer_path.push(112);
        writer_path.push(47);
        writer_path.push(116);
        writer_path.push(116);
        writer_path.push(121);
        writer_path.push(86);
        writer_path.push(49);
        proof {
            assert(monitor_path@ =~= default_monitor_path());
            assert(writer_path@ =~= default_writer_path());
        }
        LinkConfig { monitor_path, writer_path }
    }
}

/// Build one `pty,raw,echo=0,link=<path>` argument.
fn pty_arg(path: &Vec<u8>) -> (r: Vec<u8>)
    ensures
        r@ == pty_arg_bytes(path@),
{
    let mut r: Vec<u8> = Vec::new();
    r.push(112);
    r.push(116);
    r.push(121);
    r.push(44);
    r.push(114);
    r.push(97);
    r.push(119);
    r.push(44);
    r.push(101);
    r.push(99);
    r.push(104);
    r.push(111);
    r.push(61);
    r.push(48);
    r.push(44);
    r.push(108);
    r.push(105);
    r.push(110);
    r.push(107);
    r.push(61);
    proof {
        assert(r@ =~= pty_prefix_bytes());
    }
    append_bytes(&mut r, path);
    r
}

/// The argument list for the device-pairing facility: verbose twice,
/// then one linked pseudo-terminal request per endpoint, monitor side
/// first.
pub fn socat_args(cfg: &LinkConfig) -> (args: Vec<Vec<u8>>)
    ensures
        args@.len() == 4,
        args@[0]@ == dash_d_bytes(),
        args@[1]@ == dash_d_bytes(),
        args@[2]@ == pty_arg_bytes(cfg.monitor_path@),
        args@[3]@ == pty_arg_bytes(cfg.writer_path@),
{
    let mut args: Vec<Vec<u8>> = Vec::new();
    let mut d0: Vec<u8> = Vec::new();
    d0.push(45);
    d0.push(100);
    let mut d1: Vec<u8> = Vec::new();
    d1.push(45);
    d1.push(100);
    proof {
        assert(d0@ =~= dash_d_bytes());
        assert(d1@ =~= dash_d_bytes());
    }
    args.push(d0);
    args.push(d1);
    args.push(pty_arg(&cfg.monitor_path));
    args.push(pty_arg(&cfg.writer_path));
    args
}

/// The argument list for the serial-monitor program: the port path, the
/// baud rate in decimal, and the live-plot flag when asked for.
pub fn comchan_args(port: &Vec<u8>, baud: u32, plot: bool) -> (args: Vec<Vec<u8>>)
    ensures
        args@.len() == (if plot {
            5int
        } else {
            4int
        }),
        args@[0]@ == port_flag_bytes(),
        args@[1]@ == port@,
        args@[2]@ == baud_flag_bytes(),
        args@[3]@ == dec_bytes(baud as int),
        plot ==> args@[4]@ == plot_flag_bytes(),
{
    let mut args: Vec<Vec<u8>> = Vec::new();
    let mut pf: Vec<u8> = Vec::new();
    pf.push(45);
    pf.push(45);
    pf.push(112);
    pf.push(111);
    pf.push(114);
    pf.push(116);
    proof {
        assert(pf@ =~= port_flag_bytes());
    }
    args.push(pf);
    let mut p: Vec<u8> = Vec::new();
    append_bytes(&mut p, port);
    proof {
        assert(p@ =~= port@);
    }
    args.push(p);
    let mut bf: Vec<u8> = Vec::new();
    bf.push(45);
    bf.push(45);
    bf.push(98);
    bf.push(97);
    bf.push(117);
    bf.push(100);
    proof {
        assert(bf@ =~= baud_flag_bytes());
    }
    args.push(bf);
    args.push(u64_to_dec(baud as u64));
    if plot {
        let mut lf: Vec<u8> = Vec::new();
        lf.push(45);
        lf.push(45);
        lf.push(112);
        lf.push(108);
        lf.push(111);
        lf.push(116);
        proof {
            assert(lf@ =~= plot_flag_bytes());
        }
        args.push(lf);
    }
    args
}

} // verus!
