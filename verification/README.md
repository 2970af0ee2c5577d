# sensirion_uart_sensorbridge

Driver logic for the Sensirion SEK-SensorBridge, which connects sensors to a
computer over USB/UART with the SHDLC protocol, written in Verus.

`src/` is the verified library:

- `protocol::definitions`: ports, SPI modes, and the code tables of supply
  voltages (in tenths of a volt), I2C and SPI frequencies, with the laws that
  each table is a bijection between its supported values and its codes.
- `protocol::errors`: the error values, the I2C status codes, and the table of
  SensorBridge device error codes.
- `protocol::wire`: 32-bit fields, read and written with `byteorder`.
- `protocol::types`: repeated-transceive handles, buffered values, and the
  splitting of buffered data into packets.
- `protocol::commands`: each SensorBridge SHDLC command, the data it sends,
  its response limits and how its response is read.
- `device`: the decisions of the device drivers, as functions from state and
  reply to the next command: the command of each operation, the splitting of
  an I2C transceive over several frames, the reading of a transceive buffer,
  and what an I2C proxy reports.

`app/` holds the drivers themselves on top of `rust-shdlc-driver`: the
asynchronous and blocking device, the I2C proxies, firmware images, and the
floating-point conversions of voltages and timeouts.
