# agriculture_drone

A simulated agricultural spraying drone. Sensors (multispectral camera,
thermal camera, GPS, ultrasonic sensor, battery) take readings; a main
control decides what the actuators (water, fertiliser and pesticide
dispensers, motor and propellers, landing gear) do; the actuators act and
report back; a refill station recharges the drone when it lands.

- `src/` is the verified library (Verus): the sensor models, the main
  control's decisions, the actuators, the decimal text that readings travel
  in, and the laws that tie them together (`src/laws.rs`).
- `app/` is the program around it: threads, message queues, JSON, printing.
- `tests/` runs the library on concrete values.
