# hierarbus

The verified core of HierarBusOS, a RISC-V teaching kernel whose services
(file system, timer, task manager, virtual memory) are nodes on a message
bus.

- `src/` is the library, verified with Verus: message routing on the module
  bus and the node bus, the decoding of service requests and Linux system
  calls, trap classification, the replies of each service, task exit and
  wait, memory-mapping arithmetic, error numbers and descriptions,
  device-tree discovery of virtio devices from the raw blob (parsed by
  `device_tree`), and raw-socket writes with the IPv4 datagrams they send.
  `src/laws.rs` holds the properties that span several of these.
- `app/` is the kernel around it: the global buses behind locks, the
  services as bus handlers, trap entry and return on the RISC-V registers,
  user-side system calls, raw sockets over `smoltcp`, the mapping and start
  of the virtio devices found.  The console, the memory manager and the task controller are
  reached through the interfaces of `app/platform.rs`.
- `tests/` exercises the library on concrete values.
