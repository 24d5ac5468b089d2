# AetherV kernel logic, verified

AetherV is a small RISC-V (RV64, Sv39) microkernel with user-mode servers
that talk over synchronous IPC: a name server, a block device, a FAT16 file
server, a keyboard input server, a window manager with two demo clients, a
display server, a network server and an interactive shell.

`src/` holds the kernel's and the servers' logic as a library whose
functions carry Verus contracts and are proved:

- `paging`: page-table entries, the frame allocator, the Sv39 walk, mapping
  pages, ranges and the boot regions, with laws on what a mapping changes.
- `task`, `trap`: the round-robin scheduler, the IPC system calls
  (send, receive, notify, reply-and-receive) and the trap dispatcher.
- `ipc`, `nameserver`, `block_server`, `vfs_server`, `input_server`,
  `net_server`, `gpu_server`, `wm`, `clients`, `shell`: the servers' and
  clients' request handling as functions from state and message to next
  state and reply (or action).
- `drivers`: VirtIO MMIO setup as a state machine, virtqueues, the GPU
  command sequence and drawing, the input event queue.
- `fdt`: reading a flattened device tree blob and the boot arguments.
- `text`: byte-string helpers; `core::str::from_utf8` is the one outside
  call, behind a wrapper.

`tests/` runs the library on concrete values. `app/` is a host program that
wires the servers together in one process, reads keys from standard input
for the shell and can write the screen as a PPM image.
