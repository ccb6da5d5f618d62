# xmip-core-sdk

What a module provider builds against: the media a protocol is proved on, in
process, with no hardware and no network, and the export that makes a Rust
contract loadable. The logic is verified with Verus.

| Module | What it is |
| --- | --- |
| `sdk::broadcast` | a medium on which every node hears every frame another node sends: a CAN bus, an Ethernet segment, the air |
| `sdk::contract` | the traits a contract and its factory implement, and what they exchange |
| `sdk::contract::export` | what a host may ask of a loaded contract, and what it is answered |
| `sdk::text` | text as it crosses the boundary to a host |

What holds over more than one call stands in `broadcast::laws` and
`contract::export::laws`.

`app/` is the ordinary Rust around the library: the medium behind a lock and a
clock, and the C table a host drives, over `xmip-core-abi` and
`xmip-core-transport`.

## A frame on the medium

```rust
use sdk::broadcast::{Medium, Reception};

let mut medium = Medium::new("can0");
let (a, b) = (medium.node(), medium.node());
a.transmit(&mut medium, &1u8).expect("heard");
assert_eq!(b.receive(&mut medium, 0, 0), Reception::Done(Some(1)));
```

## What is trusted

`std::str::from_utf8` accepts exactly the well-formed UTF-8 bytes and answers
the text they encode. Nothing else is assumed: a contract and its factory may
answer anything. What is asked of a host is that its reader hands over no more
bytes than it was asked for.
